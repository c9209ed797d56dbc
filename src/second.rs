//! A generic singly-linked stack that owns its nodes.

use crate::teardown::replace;
use vstd::prelude::*;

verus! {

type Link<T> = Option<Box<Node<T>>>;

/// A node of a stack: an element and the link to the rest.
pub struct Node<T> {
    elem: T,
    next: Link<T>,
}

impl<T> View for Node<T> {
    type V = Seq<T>;

    /// The node's element followed by the elements of the rest of the stack.
    closed spec fn view(&self) -> Seq<T> {
        seq![self.elem] + link_view(self.next)
    }
}

/// A stack; its first element is the one pushed last.
pub struct List<T> {
    head: Link<T>,
}

/// An iterator that takes the elements out of a `List`, top first.
pub struct IntoIter<T>(List<T>);

/// A forward iterator over the elements of a `List`, by reference.
pub struct Iter<'a, T> {
    next: Option<&'a Node<T>>,
}

/// A forward iterator over the elements of a `List`, for writing.
pub struct IterMut<'a, T> {
    next: Option<&'a mut Node<T>>,
}

/// The elements reachable from a link, in order.
spec fn link_view<T>(link: Link<T>) -> Seq<T>
    decreases link,
{
    match link {
        Some(node) => seq![node.elem] + link_view(node.next),
        None => Seq::empty(),
    }
}

impl<T> View for List<T> {
    type V = Seq<T>;

    closed spec fn view(&self) -> Seq<T> {
        link_view(self.head)
    }
}

impl<T> View for IntoIter<T> {
    type V = Seq<T>;

    /// The elements that the iterator has yet to hand out.
    closed spec fn view(&self) -> Seq<T> {
        self.0@
    }
}

impl<'a, T> View for Iter<'a, T> {
    type V = Seq<T>;

    /// The elements that the iterator has yet to hand out.
    closed spec fn view(&self) -> Seq<T> {
        match self.next {
            Some(node) => seq![node.elem] + link_view(node.next),
            None => Seq::empty(),
        }
    }
}

impl<T> List<T> {
    /// The empty stack.
    pub fn new() -> (r: Self)
        ensures
            r@ == Seq::<T>::empty(),
    {
        List { head: None }
    }

    /// Puts `x` on top of the stack.
    pub fn push(&mut self, x: T)
        ensures
            final(self)@ == seq![x] + old(self)@,
    {
        let next = self.head.take();
        self.head = Some(Box::new(Node { elem: x, next: next }));
    }

    /// Takes the top element off the stack; `None` when it is empty.
    pub fn pop(&mut self) -> (r: Option<T>)
        ensures
            old(self)@.len() == 0 ==> r is None && final(self)@ == old(self)@,
            old(self)@.len() > 0 ==> r == Some(old(self)@[0]) && final(self)@
                == old(self)@.drop_first(),
    {
        match self.head.take() {
            Some(node) => {
                let node = *node;
                self.head = node.next;
                Some(node.elem)
            },
            None => None,
        }
    }

    /// The top element; `None` when the stack is empty.
    pub fn peek(&self) -> (r: Option<&T>)
        ensures
            self@.len() == 0 ==> r is None,
            self@.len() > 0 ==> (r matches Some(e) && *e == self@[0]),
    {
        match &self.head {
            Some(node) => Some(&node.elem),
            None => None,
        }
    }

    /// The top element, for writing; `None` when the stack is empty. What is
    /// written through it becomes the stack's top element.
    pub fn peek_mut(&mut self) -> (r: Option<&mut T>)
        ensures
            old(self)@.len() == 0 ==> r is None && final(self)@ == old(self)@,
            old(self)@.len() > 0 ==> (r matches Some(e) && *e == old(self)@[0] && final(self)@
                == old(self)@.update(0, *final(e))),
    {
        match &mut self.head {
            Some(node) => Some(&mut node.elem),
            None => None,
        }
    }

    /// An iterator that takes the elements out, top first.
    pub fn into_iter(self) -> (r: IntoIter<T>)
        ensures
            r@ == self@,
    {
        IntoIter(self)
    }

    /// An iterator over the elements by reference, top first.
    pub fn iter(&self) -> (r: Iter<'_, T>)
        ensures
            r@ == self@,
    {
        match &self.head {
            Some(node) => Iter { next: Some(&**node) },
            None => Iter { next: None },
        }
    }
}

impl<T> List<T> {
    /// An iterator over the elements for writing, top first.
    ///
    /// Once the borrow ends, the stack holds, in order, the values that
    /// stand behind the references that the iterator handed out when each
    /// was last used: `final(self)@` is the final view of the first node,
    /// which `IterMut::next` states in terms of the element it hands out and
    /// the final view of the node after it.
    pub fn iter_mut(&mut self) -> (r: IterMut<'_, T>)
        ensures
            r@ == old(self)@,
            final(self)@ == match r.node() {
                Some(n) => final(n)@,
                None => Seq::<T>::empty(),
            },
    {
        match &mut self.head {
            Some(node) => IterMut { next: Some(&mut **node) },
            None => IterMut { next: None },
        }
    }
}

impl<'a, T> View for IterMut<'a, T> {
    type V = Seq<T>;

    /// The elements that the iterator has yet to hand out.
    closed spec fn view(&self) -> Seq<T> {
        match self.next {
            Some(node) => seq![node.elem] + link_view(node.next),
            None => Seq::empty(),
        }
    }
}

impl<'a, T> IterMut<'a, T> {
    /// The node whose element the iterator hands out next.
    pub closed spec fn node(&self) -> Option<&'a mut Node<T>> {
        self.next
    }

    /// The next element, for writing, or `None` once all have been handed out.
    /// The node it belongs to ends up holding what was last written through
    /// the returned reference, in front of the final view of the node that
    /// the iterator moves on to.
    pub fn next(&mut self) -> (r: Option<&'a mut T>)
        ensures
            old(self)@.len() == 0 ==> r is None,
            old(self)@.len() > 0 ==> (r matches Some(e) && *e == old(self)@[0] && final(self)@
                == old(self)@.drop_first()),
            old(self).node() matches Some(n) ==> (r matches Some(e) && final(n)@ == seq![
                *final(e),
            ] + match final(self).node() {
                Some(m) => final(m)@,
                None => Seq::<T>::empty(),
            }),
    {
        match self.next.take() {
            Some(node) => {
                self.next = match &mut node.next {
                    Some(b) => Some(&mut **b),
                    None => None,
                };
                Some(&mut node.elem)
            },
            None => None,
        }
    }
}

/// Frees the nodes of `link` front to back in a loop, so that a long stack
/// does not recurse once per node.
fn release<T>(link: Link<T>)
    opens_invariants none
    no_unwind
{
    let mut link = link;
    loop
        decreases link_view(link).len(),
    {
        match link {
            Some(node) => {
                let mut node = node;
                link = replace(&mut node.next, None);
            },
            None => break,
        }
    }
}

impl<T> Drop for List<T> {
    fn drop(&mut self)
        ensures
            final(self)@ == Seq::<T>::empty(),
        opens_invariants none
        no_unwind
    {
        release(replace(&mut self.head, None));
    }
}

impl<T> IntoIter<T> {
    /// The next element, taken out; `None` once all have been handed out.
    pub fn next(&mut self) -> (r: Option<T>)
        ensures
            old(self)@.len() == 0 ==> r is None && final(self)@ == old(self)@,
            old(self)@.len() > 0 ==> r == Some(old(self)@[0]) && final(self)@
                == old(self)@.drop_first(),
    {
        self.0.pop()
    }
}

impl<'a, T> Iter<'a, T> {
    /// The next element, or `None` once all have been handed out.
    pub fn next(&mut self) -> (r: Option<&'a T>)
        ensures
            old(self)@.len() == 0 ==> r is None && final(self)@ == old(self)@,
            old(self)@.len() > 0 ==> (r matches Some(e) && *e == old(self)@[0] && final(self)@
                == old(self)@.drop_first()),
    {
        match self.next {
            Some(node) => {
                self.next = match &node.next {
                    Some(b) => Some(&**b),
                    None => None,
                };
                Some(&node.elem)
            },
            None => None,
        }
    }
}

} // verus!
