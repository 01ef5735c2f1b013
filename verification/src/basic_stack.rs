//! An exclusively owned stack of `String` elements over a singly-linked
//! chain of boxed nodes, with the links written out as an enum.
//!
//! The view of a list is the sequence of its elements from the head down,
//! so the element pushed last stands at index 0.

use vstd::prelude::*;

use crate::stack::popped;

verus! {

pub struct List {
    head: Link,
}

enum Link {
    Empty,
    More(Box<Node>),
}

struct Node {
    elem: String,
    next: Link,
}

spec fn link_view(l: Link) -> Seq<String>
    decreases l,
{
    match l {
        Link::Empty => Seq::empty(),
        Link::More(node) => seq![node.elem] + link_view(node.next),
    }
}

impl View for List {
    type V = Seq<String>;

    closed spec fn view(&self) -> Seq<String> {
        link_view(self.head)
    }
}

impl List {
    /// The empty stack.
    pub fn new() -> (r: Self)
        ensures
            r@ == Seq::<String>::empty(),
    {
        List { head: Link::Empty }
    }

    /// Makes `elem` the new head element; the previous contents follow it.
    pub fn push(&mut self, elem: String)
        ensures
            final(self)@ == seq![elem] + old(self)@,
    {
        let mut taken = Link::Empty;
        core::mem::swap(&mut self.head, &mut taken);
        let new_node = Box::new(Node { elem, next: taken });
        self.head = Link::More(new_node);
    }

    /// Removes and returns the head element, or `None` on the empty stack.
    pub fn pop(&mut self) -> (r: Option<String>)
        ensures
            r == popped(old(self)@).0,
            final(self)@ == popped(old(self)@).1,
    {
        let mut taken = Link::Empty;
        core::mem::swap(&mut self.head, &mut taken);
        match taken {
            Link::Empty => None,
            Link::More(node) => {
                let node = *node;
                self.head = node.next;
                Some(node.elem)
            },
        }
    }
}

/// Empties a link in place, releasing the chain one node at a time and never
/// by recursive descent, so a chain of any length is freed with constant
/// call-stack depth.
fn release_in_place(l: &mut Link)
    ensures
        *final(l) is Empty,
{
    let mut cur_link = Link::Empty;
    core::mem::swap(l, &mut cur_link);
    loop
        decreases cur_link,
    {
        match cur_link {
            Link::More(boxed_node) => {
                let node = *boxed_node;
                cur_link = node.next;
            },
            Link::Empty => {
                break;
            },
        }
    }
}

impl Drop for List {
    /// Hands the chain to the verified iterative `release_in_place`, so
    /// destruction never recurses into the chain however long it is. The
    /// body is a single call into verified code; it stands outside the
    /// verifier only because the verifier cannot yet check a `Drop` body.
    #[verifier::external_body]
    fn drop(&mut self)
        opens_invariants none
        no_unwind
    {
        release_in_place(&mut self.head);
    }
}

} // verus!
