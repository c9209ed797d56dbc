//! A persistent singly-linked list.
//!
//! Lists are immutable; `append` and `tail` build new handles that share the
//! nodes of the list they start from, so several lists may share one tail:
//!
//! ```text
//! list1 -> A ---+
//!               v
//! list2 ------> B -> C -> D
//!               ^
//! list3 -> X ---+
//! ```
//!
//! Nodes are reference counted; a node is released when the last handle or
//! node that points at it goes away, and release runs as a loop, not as a
//! recursion, so that long lists can be dropped.

use std::rc::Rc;
use crate::teardown::{replace, try_unwrap};
use vstd::prelude::*;

verus! {

type Link<T> = Option<Rc<Node<T>>>;

#[derive(Debug)]
struct Node<T> {
    elem: T,
    next: Link<T>,
}

/// An immutable list; the first element is the most recently appended one.
#[derive(Debug)]
pub struct List<T> {
    head: Link<T>,
}

/// A forward iterator over the elements of a `List`, by reference.
pub struct Iter<'a, T> {
    next: Option<&'a Node<T>>,
}

/// The elements reachable from a link, in order.
spec fn link_view<T>(link: Link<T>) -> Seq<T>
    decreases link,
{
    match link {
        Some(node) => seq![node.elem] + link_view(node.next),
        None => Seq::empty(),
    }
}

/// The elements reachable from a node reference, the node's own first.
spec fn node_ref_view<T>(next: Option<&Node<T>>) -> Seq<T> {
    match next {
        Some(node) => seq![node.elem] + link_view(node.next),
        None => Seq::empty(),
    }
}

/// The elements of the list that appending `vals` in order to an empty list
/// gives: the last value appended comes first.
pub open spec fn appended<T>(vals: Seq<T>) -> Seq<T>
    decreases vals.len(),
{
    if vals.len() == 0 {
        Seq::empty()
    } else {
        seq![vals.last()] + appended(vals.drop_last())
    }
}

/// What `head` gives on the list reached from one with elements `s` by `k`
/// calls of `tail`; `None` once a `tail` or the `head` finds no element.
pub open spec fn head_after_tails<T>(s: Seq<T>, k: nat) -> Option<T>
    decreases k,
{
    if s.len() == 0 {
        None
    } else if k == 0 {
        Some(s[0])
    } else {
        head_after_tails(s.drop_first(), (k - 1) as nat)
    }
}

proof fn lemma_appended_index<T>(vals: Seq<T>)
    ensures
        appended(vals).len() == vals.len(),
        forall|i: int| 0 <= i < vals.len() ==> appended(vals)[i] == vals[vals.len() - 1 - i],
    decreases vals.len(),
{
    if vals.len() > 0 {
        lemma_appended_index(vals.drop_last());
    }
}

proof fn lemma_head_after_tails_index<T>(s: Seq<T>, k: nat)
    ensures
        head_after_tails(s, k) == if k < s.len() { Some(s[k as int]) } else { None::<T> },
    decreases k,
{
    if s.len() > 0 && k > 0 {
        lemma_head_after_tails_index(s.drop_first(), (k - 1) as nat);
    }
}

/// After appending `vals` in order to an empty list, `k` calls of `tail`
/// followed by `head` give the `k`-th value counting back from the last one
/// appended, and nothing once `k` reaches the number of values.
pub proof fn lemma_head_of_tails<T>(vals: Seq<T>, k: nat)
    ensures
        head_after_tails(appended(vals), k) == if k < vals.len() {
            Some(vals[vals.len() - 1 - k])
        } else {
            None::<T>
        },
{
    lemma_appended_index(vals);
    lemma_head_after_tails_index(appended(vals), k);
}

/// The empty list holds what appending no values gives, and appending `v`
/// to a list that holds what appending `vals` gives yields what appending
/// `vals` and then `v` gives.
pub proof fn lemma_appends_build<T>(e: List<T>, l: List<T>, vals: Seq<T>, v: T, longer: List<T>)
    requires
        call_ensures(List::<T>::new, (), e),
        l@ == appended(vals),
        call_ensures(List::<T>::append, (&l, v), longer),
    ensures
        e@ == appended(Seq::<T>::empty()),
        longer@ == appended(vals.push(v)),
{
    assert(vals.push(v).drop_last() =~= vals);
}

/// `head` gives what `head_after_tails` names for no `tail`, and one call of
/// `tail` moves `head_after_tails` on by one; a `tail` that finds no element
/// leaves nothing for any number of further calls.
pub proof fn lemma_tail_head_steps<T>(l: List<T>, h: Option<&T>, t: Option<List<T>>, k: nat)
    requires
        call_ensures(List::<T>::head, (&l,), h),
        call_ensures(List::<T>::tail, (&l,), t),
    ensures
        h matches Some(x) ==> head_after_tails(l@, 0) == Some(*x),
        h is None ==> head_after_tails(l@, 0) is None,
        t matches Some(r) ==> head_after_tails(r@, k) == head_after_tails(l@, k + 1),
        t is None ==> head_after_tails(l@, k) is None,
{
}

/// Two lists appended to the same list `l` have tails that hold the
/// elements of `l`, and so equal elements.
pub proof fn lemma_shared_tail<T>(
    l: List<T>,
    v: T,
    w: T,
    lv: List<T>,
    lw: List<T>,
    tv: Option<List<T>>,
    tw: Option<List<T>>,
)
    requires
        call_ensures(List::<T>::append, (&l, v), lv),
        call_ensures(List::<T>::append, (&l, w), lw),
        call_ensures(List::<T>::tail, (&lv,), tv),
        call_ensures(List::<T>::tail, (&lw,), tw),
    ensures
        tv matches Some(a) && a@ == l@,
        tw matches Some(b) && b@ == l@,
{
    assert((seq![v] + l@).drop_first() =~= l@);
    assert((seq![w] + l@).drop_first() =~= l@);
}

/// Appending to `l` leaves `l` as it was: an iterator over `l` made after
/// the append hands out what one made before it does, and the new list holds
/// those same elements behind the appended value.
pub proof fn lemma_append_keeps_original<T>(
    l: List<T>,
    v: T,
    longer: List<T>,
    before: Iter<T>,
    after: Iter<T>,
)
    requires
        call_ensures(List::<T>::iter, (&l,), before),
        call_ensures(List::<T>::append, (&l, v), longer),
        call_ensures(List::<T>::iter, (&l,), after),
    ensures
        after@ == before@,
        after@ == l@,
        longer@.drop_first() == after@,
        longer@[0] == v,
{
    assert(longer@.drop_first() =~= l@);
}

/// Iterating does not use a list up: two iterators made from one list hand
/// out the same elements, each one the whole list.
pub proof fn lemma_iteration_restarts<T>(l: List<T>, first: Iter<T>, second: Iter<T>)
    requires
        call_ensures(List::<T>::iter, (&l,), first),
        call_ensures(List::<T>::iter, (&l,), second),
    ensures
        first@ == second@,
        first@ == l@,
{
}

/// Relies on `Rc::clone`: the new handle points at the same node.
#[verifier::external_body]
fn share<T>(rc: &Rc<Node<T>>) -> (r: Rc<Node<T>>)
    ensures
        r == *rc,
{
    Rc::clone(rc)
}

fn share_link<T>(link: &Link<T>) -> (r: Link<T>)
    ensures
        r == *link,
{
    match link {
        Some(rc) => Some(share(rc)),
        None => None,
    }
}

impl<T> View for List<T> {
    type V = Seq<T>;

    closed spec fn view(&self) -> Seq<T> {
        link_view(self.head)
    }
}

impl<'a, T> View for Iter<'a, T> {
    type V = Seq<T>;

    /// The elements that the iterator has yet to hand out.
    closed spec fn view(&self) -> Seq<T> {
        node_ref_view(self.next)
    }
}

impl<T> List<T> {
    /// The empty list.
    pub fn new() -> (r: Self)
        ensures
            r@ == Seq::<T>::empty(),
    {
        List { head: None }
    }

    /// A new list holding `elem` in front of the elements of `self`; `self`
    /// is left as it was and its nodes are shared, not copied.
    pub fn append(&self, elem: T) -> (r: List<T>)
        ensures
            r@ == seq![elem] + self@,
    {
        List { head: Some(Rc::new(Node { elem: elem, next: share_link(&self.head) })) }
    }

    /// The list without its first element, sharing the rest; `None` when the
    /// list is empty.
    pub fn tail(&self) -> (r: Option<List<T>>)
        ensures
            self@.len() == 0 ==> r is None,
            self@.len() > 0 ==> (r matches Some(t) && t@ == self@.drop_first()),
    {
        match &self.head {
            Some(rc_node) => Some(List { head: share_link(&rc_node.next) }),
            None => None,
        }
    }

    /// The first element; `None` when the list is empty.
    pub fn head(&self) -> (r: Option<&T>)
        ensures
            self@.len() == 0 ==> r is None,
            self@.len() > 0 ==> (r matches Some(e) && *e == self@[0]),
    {
        match &self.head {
            Some(rc_node) => Some(&rc_node.elem),
            None => None,
        }
    }

    /// An iterator positioned at the first element.
    pub fn iter(&self) -> (r: Iter<'_, T>)
        ensures
            r@ == self@,
    {
        match &self.head {
            Some(rc_node) => Iter { next: Some(&**rc_node) },
            None => Iter { next: None },
        }
    }
}

/// Releases the nodes of `link` that nothing else holds, front to back;
/// stops at the first node that another list or node still shares.
fn release<T>(link: Link<T>)
    opens_invariants none
    no_unwind
{
    let mut link = link;
    loop
        decreases link_view(link).len(),
    {
        match link {
            Some(rc_node) => match try_unwrap(rc_node) {
                Ok(mut node) => {
                    link = replace(&mut node.next, None);
                },
                Err(_) => break,
            },
            None => break,
        }
    }
}

impl<T> Drop for List<T> {
    /// Releases the nodes that no other list shares, front to back, in a
    /// loop; stops at the first node that is still shared.
    fn drop(&mut self)
        ensures
            final(self)@ == Seq::<T>::empty(),
        opens_invariants none
        no_unwind
    {
        release(replace(&mut self.head, None));
    }
}

impl<'a, T> Iter<'a, T> {
    /// The next element, or `None` once all have been handed out.
    pub fn next(&mut self) -> (r: Option<&'a T>)
        ensures
            old(self)@.len() == 0 ==> r is None && final(self)@ == old(self)@,
            old(self)@.len() > 0 ==> (r matches Some(e) && *e == old(self)@[0]
                && final(self)@ == old(self)@.drop_first()),
    {
        match self.next {
            Some(node) => {
                self.next = match &node.next {
                    Some(rc) => Some(&**rc),
                    None => None,
                };
                Some(&node.elem)
            },
            None => None,
        }
    }
}

} // verus!
