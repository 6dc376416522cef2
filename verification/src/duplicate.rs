//! Duplication of evaluators.
//!
//! Nothing here is proved: the item states what the `dyn-clone` crate does
//! in one of its functions, and the library is verified against that.

use vstd::prelude::*;

verus! {

/// `dyn_clone::clone` has the value's `Clone` impl make a copy on the heap
/// and moves the copy out again. Claimed of the result: it is a clone of
/// `value`, that is, something that `Clone::clone` can return for `value`.
#[verifier::external_body]
pub(crate) fn duplicate<T: Clone>(value: &T) -> (copy: T)
    ensures
        cloned(*value, copy),
{
    dyn_clone::clone(value)
}

} // verus!
