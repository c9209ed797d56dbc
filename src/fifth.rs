//! A first-in first-out queue on owned singly-linked nodes, reached only
//! through `Box` and `&mut`: `push` walks to the end of the chain.

use crate::teardown::replace;
use vstd::prelude::*;

verus! {

type Link<T> = Option<Box<Node<T>>>;

struct Node<T> {
    elem: T,
    next: Link<T>,
}

/// A queue; elements leave in the order in which they were pushed.
pub struct Queue<T> {
    head: Link<T>,
}

/// The elements reachable from a link, in order.
spec fn link_view<T>(link: Link<T>) -> Seq<T>
    decreases link,
{
    match link {
        Some(node) => seq![node.elem] + link_view(node.next),
        None => Seq::empty(),
    }
}

impl<T> View for Queue<T> {
    type V = Seq<T>;

    /// The elements, oldest first.
    closed spec fn view(&self) -> Seq<T> {
        link_view(self.head)
    }
}

impl<T> Queue<T> {
    /// The empty queue.
    pub fn new() -> (r: Self)
        ensures
            r@ == Seq::<T>::empty(),
    {
        Queue { head: None }
    }

    /// Adds `x` at the end of the queue: walks a cursor down to the empty
    /// link at the end of the chain and puts the new node there.
    pub fn push(&mut self, x: T)
        ensures
            final(self)@ == old(self)@.push(x),
    {
        let ghost mut prefix: Seq<T> = Seq::empty();
        let ghost fin = link_view(final(self).head);
        let mut cur: &mut Link<T> = &mut self.head;
        loop
            invariant
                prefix + link_view(*cur) == old(self)@,
                fin == prefix + link_view(*final(cur)),
            ensures
                prefix + link_view(*cur) == old(self)@,
                fin == prefix + link_view(*final(cur)),
                *cur is None,
            decreases link_view(*cur).len(),
        {
            match cur {
                Some(node) => {
                    proof {
                        prefix = prefix.push(node.elem);
                    }
                    cur = &mut node.next;
                },
                None => break,
            }
        }
        *cur = Some(Box::new(Node { elem: x, next: None }));
    }

    /// Takes the oldest element out of the queue; `None` when it is empty.
    pub fn pop(&mut self) -> (r: Option<T>)
        ensures
            old(self)@.len() == 0 ==> r is None && final(self)@ == old(self)@,
            old(self)@.len() > 0 ==> r == Some(old(self)@[0]) && final(self)@
                == old(self)@.drop_first(),
    {
        match self.head.take() {
            Some(node) => {
                let node = *node;
                self.head = node.next;
                Some(node.elem)
            },
            None => None,
        }
    }
}

/// Frees the nodes of `link` front to back in a loop, so that a long queue
/// does not recurse once per node.
fn release<T>(link: Link<T>)
    opens_invariants none
    no_unwind
{
    let mut link = link;
    loop
        decreases link_view(link).len(),
    {
        match link {
            Some(node) => {
                let mut node = node;
                link = replace(&mut node.next, None);
            },
            None => break,
        }
    }
}

impl<T> Drop for Queue<T> {
    fn drop(&mut self)
        ensures
            final(self)@ == Seq::<T>::empty(),
        opens_invariants none
        no_unwind
    {
        release(replace(&mut self.head, None));
    }
}

} // verus!
