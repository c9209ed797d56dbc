//! A first-in first-out queue with constant-time push and amortised
//! constant-time pop, on owned singly-linked nodes.
//!
//! The queue keeps two stacks: `front` holds the oldest elements, oldest on
//! top, and `back` the newest, newest on top. `push` goes onto `back`; `pop`
//! takes from `front`, and when `front` has run dry first moves every node of
//! `back` over to it, which turns their order round.

use crate::teardown::replace;
use vstd::prelude::*;

verus! {

type Link<T> = Option<Box<Node<T>>>;

struct Node<T> {
    elem: T,
    next: Link<T>,
}

/// A queue; elements leave in the order in which they were pushed.
pub struct Queue<T> {
    front: Link<T>,
    back: Link<T>,
}

/// An iterator that takes the elements out of a `Queue`, oldest first.
pub struct IntoIter<T>(Queue<T>);

/// A forward iterator over the elements of a `Queue`, by reference, oldest
/// first.
pub struct Iter<'a, T> {
    front: Option<&'a Node<T>>,
    back: Vec<&'a T>,
}

/// The elements reachable from a link, in order.
spec fn link_view<T>(link: Link<T>) -> Seq<T>
    decreases link,
{
    match link {
        Some(node) => seq![node.elem] + link_view(node.next),
        None => Seq::empty(),
    }
}

spec fn node_ref_view<T>(next: Option<&Node<T>>) -> Seq<T> {
    match next {
        Some(node) => seq![node.elem] + link_view(node.next),
        None => Seq::empty(),
    }
}

spec fn deref_all<T>(refs: Seq<&T>) -> Seq<T> {
    refs.map_values(|r: &T| *r)
}

impl<T> View for Queue<T> {
    type V = Seq<T>;

    /// The elements, oldest first.
    closed spec fn view(&self) -> Seq<T> {
        link_view(self.front) + link_view(self.back).reverse()
    }
}

impl<T> View for IntoIter<T> {
    type V = Seq<T>;

    /// The elements that the iterator has yet to hand out.
    closed spec fn view(&self) -> Seq<T> {
        self.0@
    }
}

impl<'a, T> View for Iter<'a, T> {
    type V = Seq<T>;

    /// The elements that the iterator has yet to hand out.
    closed spec fn view(&self) -> Seq<T> {
        node_ref_view(self.front) + deref_all(self.back@).reverse()
    }
}

proof fn lemma_reverse_cons<T>(x: T, s: Seq<T>)
    ensures
        (seq![x] + s).reverse() == s.reverse().push(x),
{
    assert((seq![x] + s).reverse() =~= s.reverse().push(x));
}

impl<T> Queue<T> {
    /// The empty queue.
    pub fn new() -> (r: Self)
        ensures
            r@ == Seq::<T>::empty(),
    {
        Queue { front: None, back: None }
    }

    /// Adds `x` at the end of the queue.
    pub fn push(&mut self, x: T)
        ensures
            final(self)@ == old(self)@.push(x),
    {
        let next = self.back.take();
        self.back = Some(Box::new(Node { elem: x, next: next }));
        proof {
            lemma_reverse_cons(x, link_view(old(self).back));
            assert(self@ =~= old(self)@.push(x));
        }
    }

    /// Moves every node of `back` onto `front`, newest first, so that `front`
    /// ends with the oldest element on top; the queue's elements stay as
    /// they were.
    fn shift(&mut self)
        requires
            old(self).front is None,
        ensures
            final(self)@ == old(self)@,
            final(self).back is None,
    {
        let mut back = self.back.take();
        let mut front: Link<T> = None;
        loop
            invariant
                link_view(back).reverse() + link_view(front) == old(self)@,
            ensures
                back is None,
                link_view(front) == old(self)@,
            decreases link_view(back).len(),
        {
            match back {
                Some(node) => {
                    let node = *node;
                    proof {
                        lemma_reverse_cons(node.elem, link_view(node.next));
                        assert(link_view(node.next).reverse() + (seq![node.elem] + link_view(
                            front,
                        )) =~= link_view(node.next).reverse().push(node.elem) + link_view(front));
                    }
                    front = Some(Box::new(Node { elem: node.elem, next: front }));
                    back = node.next;
                },
                None => break,
            }
        }
        self.front = front;
        proof {
            assert(self@ =~= old(self)@);
        }
    }

    /// Takes the oldest element out of the queue; `None` when it is empty.
    pub fn pop(&mut self) -> (r: Option<T>)
        ensures
            old(self)@.len() == 0 ==> r is None && final(self)@ == old(self)@,
            old(self)@.len() > 0 ==> r == Some(old(self)@[0]) && final(self)@
                == old(self)@.drop_first(),
    {
        if self.front.is_none() {
            self.shift();
        }
        match self.front.take() {
            Some(node) => {
                let node = *node;
                self.front = node.next;
                proof {
                    assert(self@ =~= old(self)@.drop_first());
                }
                Some(node.elem)
            },
            None => None,
        }
    }

    /// An iterator that takes the elements out, oldest first.
    pub fn into_iter(self) -> (r: IntoIter<T>)
        ensures
            r@ == self@,
    {
        IntoIter(self)
    }

    /// An iterator over the elements by reference, oldest first.
    pub fn iter(&self) -> (r: Iter<'_, T>)
        ensures
            r@ == self@,
    {
        let mut back: Vec<&T> = Vec::new();
        let mut cur: Option<&Node<T>> = match &self.back {
            Some(node) => Some(&**node),
            None => None,
        };
        loop
            invariant
                deref_all(back@) + node_ref_view(cur) == link_view(self.back),
            ensures
                deref_all(back@) == link_view(self.back),
            decreases node_ref_view(cur).len(),
        {
            match cur {
                Some(node) => {
                    let ghost before = back@;
                    back.push(&node.elem);
                    proof {
                        assert(deref_all(back@) =~= deref_all(before).push(node.elem));
                    }
                    cur = match &node.next {
                        Some(n) => Some(&**n),
                        None => None,
                    };
                },
                None => break,
            }
        }
        let front = match &self.front {
            Some(node) => Some(&**node),
            None => None,
        };
        Iter { front: front, back: back }
    }
}

impl<T> IntoIter<T> {
    /// The next element, taken out; `None` once all have been handed out.
    pub fn next(&mut self) -> (r: Option<T>)
        ensures
            old(self)@.len() == 0 ==> r is None && final(self)@ == old(self)@,
            old(self)@.len() > 0 ==> r == Some(old(self)@[0]) && final(self)@
                == old(self)@.drop_first(),
    {
        self.0.pop()
    }
}

impl<'a, T> Iter<'a, T> {
    /// The next element, or `None` once all have been handed out.
    pub fn next(&mut self) -> (r: Option<&'a T>)
        ensures
            old(self)@.len() == 0 ==> r is None && final(self)@ == old(self)@,
            old(self)@.len() > 0 ==> (r matches Some(e) && *e == old(self)@[0] && final(self)@
                == old(self)@.drop_first()),
    {
        match self.front {
            Some(node) => {
                self.front = match &node.next {
                    Some(n) => Some(&**n),
                    None => None,
                };
                proof {
                    assert(self@ =~= old(self)@.drop_first());
                }
                Some(&node.elem)
            },
            None => {
                let r = self.back.pop();
                proof {
                    if old(self).back@.len() > 0 {
                        assert(deref_all(self.back@) =~= deref_all(old(self).back@).drop_last());
                        assert(self@ =~= old(self)@.drop_first());
                    }
                }
                r
            },
        }
    }
}

/// Frees the nodes of `link` front to back in a loop, so that a long queue
/// does not recurse once per node.
fn release<T>(link: Link<T>)
    opens_invariants none
    no_unwind
{
    let mut link = link;
    loop
        decreases link_view(link).len(),
    {
        match link {
            Some(node) => {
                let mut node = node;
                link = replace(&mut node.next, None);
            },
            None => break,
        }
    }
}

impl<T> Drop for Queue<T> {
    fn drop(&mut self)
        ensures
            final(self)@ == Seq::<T>::empty(),
        opens_invariants none
        no_unwind
    {
        release(replace(&mut self.front, None));
        release(replace(&mut self.back, None));
    }
}

} // verus!
