//! A persistent singly-linked list. Every node is jointly owned, through a
//! reference count, by all the list values whose chain runs through it, so
//! `prepend` and `tail` produce new list values without copying and without
//! touching the receiver.
//!
//! The view of a list is the sequence of its elements from the head down.

use std::rc::Rc;
use vstd::prelude::*;

verus! {

pub struct List<T> {
    head: Link<T>,
}

type Link<T> = Option<Rc<Node<T>>>;

struct Node<T> {
    elem: T,
    next: Link<T>,
}

spec fn link_view<T>(l: Link<T>) -> Seq<T>
    decreases l,
{
    match l {
        None => Seq::empty(),
        Some(node) => seq![node.elem] + link_view(node.next),
    }
}

impl<T> View for List<T> {
    type V = Seq<T>;

    closed spec fn view(&self) -> Seq<T> {
        link_view(self.head)
    }
}

/// The view of the tail of a list whose view is `s`: everything after the
/// head element, and the empty sequence where there is no head.
pub open spec fn tail_of<T>(s: Seq<T>) -> Seq<T> {
    if s.len() == 0 {
        s
    } else {
        s.drop_first()
    }
}

/// Relies on std's `Rc::clone`: the clone is a second handle to the same
/// allocation, so it holds the same value as the original.
#[verifier::external_body]
fn rc_clone<T>(rc: &Rc<T>) -> (r: Rc<T>)
    ensures
        r == *rc,
{
    Rc::clone(rc)
}

impl<T> List<T> {
    /// The empty list.
    pub fn new() -> (r: Self)
        ensures
            r@ == Seq::<T>::empty(),
    {
        List { head: None }
    }

    /// A new list whose head element is `elem` and whose remainder is this
    /// list's chain, shared rather than copied; the receiver is unchanged.
    pub fn prepend(&self, elem: T) -> (r: List<T>)
        ensures
            r@ == seq![elem] + self@,
    {
        let next = match &self.head {
            None => None,
            Some(rc) => Some(rc_clone(rc)),
        };
        List { head: Some(Rc::new(Node { elem, next })) }
    }

    /// A new list holding everything after this list's head element, shared
    /// rather than copied; empty when this list has at most one element.
    pub fn tail(&self) -> (r: List<T>)
        ensures
            r@ == tail_of(self@),
    {
        match &self.head {
            None => List { head: None },
            Some(node) => List {
                head: match &node.next {
                    None => None,
                    Some(rc) => Some(rc_clone(rc)),
                },
            },
        }
    }

    /// A read-only view of the head element, or `None` on the empty list.
    pub fn head(&self) -> (r: Option<&T>)
        ensures
            match r {
                Some(v) => self@.len() > 0 && *v == self@[0],
                None => self@.len() == 0,
            },
    {
        match &self.head {
            None => None,
            Some(node) => Some(&node.elem),
        }
    }

    /// A read-only cursor over the list, starting at the head element.
    pub fn iter(&self) -> (r: Iter<'_, T>)
        ensures
            r@ == self@,
    {
        match &self.head {
            None => Iter { next: None },
            Some(node) => Iter { next: Some(&**node) },
        }
    }
}

/// A read-only cursor: it borrows the list and hands out a shared reference
/// to each element in turn, changing nothing. Reading through shared nodes
/// is safe because no node is ever written after it is created.
pub struct Iter<'a, T> {
    next: Option<&'a Node<T>>,
}

spec fn ref_link_view<T>(l: Option<&Node<T>>) -> Seq<T> {
    match l {
        None => Seq::empty(),
        Some(node) => seq![node.elem] + link_view(node.next),
    }
}

impl<'a, T> View for Iter<'a, T> {
    type V = Seq<T>;

    closed spec fn view(&self) -> Seq<T> {
        ref_link_view(self.next)
    }
}

impl<'a, T> Iter<'a, T> {
    /// A shared reference to the next element, or `None` at the end.
    pub fn next(&mut self) -> (r: Option<&'a T>)
        ensures
            match r {
                Some(v) => old(self)@.len() > 0 && *v == old(self)@[0] && final(self)@ == old(
                    self,
                )@.drop_first(),
                None => old(self)@.len() == 0 && final(self)@ == old(self)@,
            },
    {
        match self.next {
            None => None,
            Some(node) => {
                self.next = match &node.next {
                    None => None,
                    Some(n) => Some(&**n),
                };
                Some(&node.elem)
            },
        }
    }
}

/// Persistent sharing and independence: two lists prepended onto one and
/// the same ancestor view `s` each carry their own head element, and the
/// tail of either is the ancestor view again; the ancestor itself cannot
/// change, since `prepend` takes it by shared reference and no node is
/// written after it is created.
pub proof fn lemma_prepend_branches<T>(s: Seq<T>, x: T, y: T)
    ensures
        (seq![x] + s)[0] == x,
        (seq![y] + s)[0] == y,
        tail_of(seq![x] + s) == s,
        tail_of(seq![y] + s) == s,
{
    assert((seq![x] + s).drop_first() =~= s);
    assert((seq![y] + s).drop_first() =~= s);
}

/// Taking the tail of an empty list yields an empty list again, so
/// repeated `tail` calls on an already-empty list keep yielding the empty
/// list, and never fail.
pub proof fn lemma_tail_of_empty_is_empty<T>()
    ensures
        tail_of(Seq::<T>::empty()) == Seq::<T>::empty(),
{
}

/// Empties a link in place. Each node's ownership count is released one node
/// at a time, never by recursive descent; the walk stops at the first node
/// that another list still owns, leaving that shared remainder untouched.
fn release_in_place<T>(l: &mut Link<T>)
    ensures
        *final(l) is None,
{
    let mut head = l.take();
    loop
        decreases link_view(head).len(),
    {
        match head {
            Some(node_rc) => {
                match Rc::try_unwrap(node_rc) {
                    Ok(mut node) => {
                        head = node.next.take();
                    },
                    Err(_) => {
                        break;
                    },
                }
            },
            None => {
                break;
            },
        }
    }
}

impl<T> Drop for List<T> {
    /// Hands the chain to the verified iterative `release_in_place`, so
    /// destruction never recurses into the chain however long it is. The
    /// body is a single call into verified code; it stands outside the
    /// verifier only because the verifier cannot yet check a `Drop` body.
    #[verifier::external_body]
    fn drop(&mut self)
        opens_invariants none
        no_unwind
    {
        release_in_place(&mut self.head);
    }
}

} // verus!
