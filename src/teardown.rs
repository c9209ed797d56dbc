//! The two moves that the lists' destructors make, stated so that a
//! destructor may call them: neither unwinds nor opens an invariant.

use std::rc::Rc;
use vstd::prelude::*;

verus! {

/// Puts `value` behind `dest` and returns what was there before, by a swap.
pub(crate) fn replace<T>(dest: &mut T, value: T) -> (r: T)
    ensures
        r == *old(dest),
        *final(dest) == value,
    opens_invariants none
    no_unwind
{
    let mut v = value;
    core::mem::swap(dest, &mut v);
    v
}

/// Relies on `Rc::try_unwrap`: the inner value when `rc` is the only strong
/// handle to it, else `rc` itself, unchanged.
#[verifier::external_body]
pub(crate) fn try_unwrap<T>(rc: Rc<T>) -> (r: Result<T, Rc<T>>)
    ensures
        match r {
            Ok(t) => t == *rc,
            Err(e) => e == rc,
        },
    opens_invariants none
    no_unwind
{
    Rc::try_unwrap(rc)
}

} // verus!
