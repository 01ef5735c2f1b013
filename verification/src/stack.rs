//! An exclusively owned stack over a singly-linked chain of boxed nodes.
//!
//! The view of a list is the sequence of its elements from the head down,
//! so the element pushed last stands at index 0.

use vstd::prelude::*;

verus! {

pub struct List<T> {
    head: Link<T>,
}

type Link<T> = Option<Box<Node<T>>>;

struct Node<T> {
    elem: T,
    next: Link<T>,
}

spec fn link_view<T>(l: Link<T>) -> Seq<T>
    decreases l,
{
    match l {
        None => Seq::empty(),
        Some(node) => seq![node.elem] + link_view(node.next),
    }
}

impl<T> View for List<T> {
    type V = Seq<T>;

    closed spec fn view(&self) -> Seq<T> {
        link_view(self.head)
    }
}

/// What removing the head element from a stack whose view is `s` returns
/// and leaves behind: the head element, if there is one, and the rest.
pub open spec fn popped<T>(s: Seq<T>) -> (Option<T>, Seq<T>) {
    if s.len() == 0 {
        (None, s)
    } else {
        (Some(s[0]), s.drop_first())
    }
}

/// The view after pushing the elements of `xs`, in order, onto a stack
/// whose view is `s`.
pub open spec fn pushed_all<T>(s: Seq<T>, xs: Seq<T>) -> Seq<T>
    decreases xs.len(),
{
    if xs.len() == 0 {
        s
    } else {
        pushed_all(seq![xs[0]] + s, xs.drop_first())
    }
}

impl<T> List<T> {
    /// The empty stack.
    pub fn new() -> (r: Self)
        ensures
            r@ == Seq::<T>::empty(),
    {
        List { head: None }
    }

    /// Makes `elem` the new head element; the previous contents follow it.
    pub fn push(&mut self, elem: T)
        ensures
            final(self)@ == seq![elem] + old(self)@,
    {
        let new_node = Box::new(Node { elem, next: self.head.take() });
        self.head = Some(new_node);
    }

    /// Removes and returns the head element, or `None` on the empty stack.
    pub fn pop(&mut self) -> (r: Option<T>)
        ensures
            r == popped(old(self)@).0,
            final(self)@ == popped(old(self)@).1,
    {
        match self.head.take() {
            None => None,
            Some(node) => {
                let node = *node;
                self.head = node.next;
                Some(node.elem)
            },
        }
    }

    /// A read-only view of the head element, or `None` on the empty stack.
    /// It reports exactly the element that `pop` would return, and, taking
    /// the stack by shared reference, it changes nothing.
    pub fn peek(&self) -> (r: Option<&T>)
        ensures
            match r {
                Some(v) => self@.len() > 0 && *v == self@[0] && popped(self@).0 == Some(*v),
                None => self@.len() == 0 && popped(self@).0 is None,
            },
    {
        match &self.head {
            None => None,
            Some(node) => Some(&node.elem),
        }
    }

    /// A mutable view of the head element, or `None` on the empty stack.
    /// Writing through the view replaces the head element and nothing else.
    pub fn peek_mut(&mut self) -> (r: Option<&mut T>)
        ensures
            old(self)@.len() == 0 ==> r is None && final(self)@ == old(self)@,
            old(self)@.len() > 0 ==> r is Some && *r.unwrap() == old(self)@[0] && final(self)@
                == old(self)@.update(0, *final(r.unwrap())),
    {
        match &mut self.head {
            None => None,
            Some(node) => Some(&mut node.elem),
        }
    }
}

/// A by-value cursor: it owns the list and hands each element out in turn,
/// emptying the list as it advances.
pub struct IntoIter<T>(List<T>);

impl<T> View for IntoIter<T> {
    type V = Seq<T>;

    closed spec fn view(&self) -> Seq<T> {
        self.0@
    }
}

impl<T> List<T> {
    /// Consumes the list, yielding a by-value cursor over its elements.
    pub fn into_iter(self) -> (r: IntoIter<T>)
        ensures
            r@ == self@,
    {
        IntoIter(self)
    }
}

impl<T> IntoIter<T> {
    /// Takes ownership of the next element, or returns `None` at the end:
    /// one `popped` step on the remaining view.
    pub fn next(&mut self) -> (r: Option<T>)
        ensures
            r == popped(old(self)@).0,
            final(self)@ == popped(old(self)@).1,
    {
        self.0.pop()
    }
}

/// A read-only cursor: it borrows the list and hands out a shared reference
/// to each element in turn, changing nothing.
pub struct Iter<'a, T> {
    next: Option<&'a Node<T>>,
}

spec fn ref_link_view<T>(l: Option<&Node<T>>) -> Seq<T> {
    match l {
        None => Seq::empty(),
        Some(node) => seq![node.elem] + link_view(node.next),
    }
}

impl<'a, T> View for Iter<'a, T> {
    type V = Seq<T>;

    closed spec fn view(&self) -> Seq<T> {
        ref_link_view(self.next)
    }
}

impl<T> List<T> {
    /// A read-only cursor over the list, starting at the head element.
    pub fn iter(&self) -> (r: Iter<'_, T>)
        ensures
            r@ == self@,
    {
        match &self.head {
            None => Iter { next: None },
            Some(node) => Iter { next: Some(&**node) },
        }
    }
}

impl<'a, T> Iter<'a, T> {
    /// A shared reference to the next element, or `None` at the end: one
    /// `popped` step on the remaining view.
    pub fn next(&mut self) -> (r: Option<&'a T>)
        ensures
            match r {
                Some(v) => popped(old(self)@).0 == Some(*v),
                None => popped(old(self)@).0 is None,
            },
            final(self)@ == popped(old(self)@).1,
    {
        match self.next {
            None => None,
            Some(node) => {
                self.next = match &node.next {
                    None => None,
                    Some(n) => Some(&**n),
                };
                Some(&node.elem)
            },
        }
    }
}

/// An exclusive cursor: it borrows the list mutably and hands out a mutable
/// reference to each element in turn; the chain's shape is never changed.
pub struct IterMut<'a, T> {
    next: Option<&'a mut Node<T>>,
}

spec fn mut_link_view<T>(l: Option<&mut Node<T>>) -> Seq<T> {
    match l {
        None => Seq::empty(),
        Some(node) => seq![node.elem] + link_view(node.next),
    }
}

impl<'a, T> View for IterMut<'a, T> {
    type V = Seq<T>;

    closed spec fn view(&self) -> Seq<T> {
        mut_link_view(self.next)
    }
}

impl<T> List<T> {
    /// An exclusive cursor over the list, starting at the head element.
    pub fn iter_mut(&mut self) -> (r: IterMut<'_, T>)
        ensures
            r@ == old(self)@,
            old(self)@.len() == 0 ==> final(self)@ == old(self)@,
    {
        match &mut self.head {
            None => IterMut { next: None },
            Some(node) => IterMut { next: Some(&mut **node) },
        }
    }
}

impl<'a, T> IterMut<'a, T> {
    /// A mutable reference to the next element, or `None` at the end: one
    /// `popped` step on the remaining view, where the reference handed out
    /// holds the element's value at the time of the call.
    pub fn next(&mut self) -> (r: Option<&'a mut T>)
        ensures
            match r {
                Some(v) => popped(old(self)@).0 == Some(*v),
                None => popped(old(self)@).0 is None,
            },
            final(self)@ == popped(old(self)@).1,
    {
        match self.next.take() {
            None => None,
            Some(node) => {
                self.next = match &mut node.next {
                    None => None,
                    Some(n) => Some(&mut **n),
                };
                Some(&mut node.elem)
            },
        }
    }
}

/// LIFO order: pushing the elements of `xs`, in order, onto an empty stack
/// leaves the view `xs` reversed; since each `pop` removes the front of the
/// view, the pops then return the elements most recently pushed first, and
/// `None` once all of them are gone.
pub proof fn lemma_lifo_order<T>(xs: Seq<T>)
    ensures
        pushed_all(Seq::<T>::empty(), xs) == xs.reverse(),
{
    lemma_pushed_all_reverse(Seq::<T>::empty(), xs);
    assert(xs.reverse() + Seq::<T>::empty() =~= xs.reverse());
}

proof fn lemma_pushed_all_reverse<T>(s: Seq<T>, xs: Seq<T>)
    ensures
        pushed_all(s, xs) == xs.reverse() + s,
    decreases xs.len(),
{
    if xs.len() == 0 {
        assert(xs.reverse() + s =~= s);
    } else {
        lemma_pushed_all_reverse(seq![xs[0]] + s, xs.drop_first());
        assert(xs.drop_first().reverse() + (seq![xs[0]] + s) =~= xs.reverse() + s);
    }
}

/// Mutating through `peek_mut` is observed afterwards: replacing the head
/// of a non-empty view `s` by `v` makes both `peek` and `pop` report `v`,
/// and `pop` then leaves the same remainder it would have left before the
/// mutation.
pub proof fn lemma_peek_mut_round_trip<T>(s: Seq<T>, v: T)
    requires
        s.len() > 0,
    ensures
        popped(s.update(0, v)).0 == Some(v),
        popped(s.update(0, v)).1 == s.drop_first(),
{
    assert(s.update(0, v).drop_first() =~= s.drop_first());
}

/// What stepping a cursor to exhaustion over a view `s` produces: each
/// step hands out the head of the remaining view and drops it.
pub open spec fn drained<T>(s: Seq<T>) -> Seq<T>
    decreases s.len(),
{
    if s.len() == 0 {
        s
    } else {
        seq![popped(s).0.unwrap()] + drained(popped(s).1)
    }
}

/// Iterator agreement: stepping any cursor over a view `s` to exhaustion
/// produces exactly `s`. Since the by-value, mutable-reference and shared-
/// reference cursors each ensure one `popped` step per call, the three
/// agree element for element, and the by-value cursor, like a run of
/// `pop` calls, leaves nothing behind.
pub proof fn lemma_iteration_produces_the_view<T>(s: Seq<T>)
    ensures
        drained(s) == s,
    decreases s.len(),
{
    if s.len() > 0 {
        lemma_iteration_produces_the_view(s.drop_first());
        assert(seq![s[0]] + s.drop_first() =~= s);
    }
}

/// Empties a link in place, releasing the chain one node at a time and never
/// by recursive descent, so a chain of any length is freed with constant
/// call-stack depth.
fn release_in_place<T>(l: &mut Link<T>)
    ensures
        *final(l) is None,
{
    let mut cur_link = l.take();
    loop
        decreases cur_link,
    {
        match cur_link {
            Some(boxed_node) => {
                let node = *boxed_node;
                cur_link = node.next;
            },
            None => {
                break;
            },
        }
    }
}

impl<T> Drop for List<T> {
    /// Hands the chain to the verified iterative `release_in_place`, so
    /// destruction never recurses into the chain however long it is. The
    /// body is a single call into verified code; it stands outside the
    /// verifier only because the verifier cannot yet check a `Drop` body.
    #[verifier::external_body]
    fn drop(&mut self)
        opens_invariants none
        no_unwind
    {
        release_in_place(&mut self.head);
    }
}

} // verus!
