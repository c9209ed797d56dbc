//! A stack of `i32` values on singly-linked, owned nodes.

use crate::teardown::replace;
use vstd::prelude::*;

verus! {

/// A stack; its first element is the one pushed last.
pub struct List {
    head: Link,
}

/// The rest of a stack: the end, or a node.
enum Link {
    Empty,
    More(Box<Node>),
}

struct Node {
    elem: i32,
    next: Link,
}

/// The values reachable from a link, in order.
spec fn link_view(link: Link) -> Seq<i32>
    decreases link,
{
    match link {
        Link::More(node) => seq![node.elem] + link_view(node.next),
        Link::Empty => Seq::empty(),
    }
}

impl View for List {
    type V = Seq<i32>;

    closed spec fn view(&self) -> Seq<i32> {
        link_view(self.head)
    }
}

impl List {
    /// The empty stack.
    pub fn new() -> (r: Self)
        ensures
            r@ == Seq::<i32>::empty(),
    {
        List { head: Link::Empty }
    }

    /// Puts `x` on top of the stack.
    pub fn push(&mut self, x: i32)
        ensures
            final(self)@ == seq![x] + old(self)@,
    {
        let next = replace(&mut self.head, Link::Empty);
        self.head = Link::More(Box::new(Node { elem: x, next: next }));
    }

    /// Takes the top value off the stack; `None` when it is empty.
    pub fn pop(&mut self) -> (r: Option<i32>)
        ensures
            old(self)@.len() == 0 ==> r is None && final(self)@ == old(self)@,
            old(self)@.len() > 0 ==> r == Some(old(self)@[0]) && final(self)@
                == old(self)@.drop_first(),
    {
        match replace(&mut self.head, Link::Empty) {
            Link::Empty => None,
            Link::More(node) => {
                let node = *node;
                self.head = node.next;
                Some(node.elem)
            },
        }
    }
}

/// Frees the nodes of `link` front to back in a loop, so that a long stack
/// does not recurse once per node.
fn release(link: Link)
    opens_invariants none
    no_unwind
{
    let mut link = link;
    loop
        decreases link_view(link).len(),
    {
        match link {
            Link::More(node) => {
                let mut node = node;
                link = replace(&mut node.next, Link::Empty);
            },
            Link::Empty => break,
        }
    }
}

impl Drop for List {
    fn drop(&mut self)
        ensures
            final(self)@ == Seq::<i32>::empty(),
        opens_invariants none
        no_unwind
    {
        release(replace(&mut self.head, Link::Empty));
    }
}

} // verus!
