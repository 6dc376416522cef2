//! The random draws that the genetic operators make.
//!
//! Nothing here is proved: each item states what the `rand` crate documents
//! of one of its functions, and the operators are verified against that.

use rand::rngs::ThreadRng;
use rand::Rng;
use vstd::prelude::*;

verus! {

/// The handle to the generator that `rand` keeps for each thread.
/// Nothing of its state is visible to the proofs.
#[verifier::external_type_specification]
#[verifier::external_body]
pub struct ExThreadRng(rand::rngs::ThreadRng);

/// `rand::thread_rng` hands out the calling thread's generator. Nothing is
/// claimed of the handle.
pub assume_specification[ rand::thread_rng ]() -> (rng: ThreadRng);

/// `Rng::gen_ratio` returns `true` with probability
/// `numerator / denominator`. It panics on a zero denominator and on a
/// numerator above the denominator, so both are excluded. Claimed of the
/// result: it is `true` when the two numbers are equal, and `false` when the
/// numerator is zero. Otherwise it may be either.
#[verifier::external_body]
pub(crate) fn gen_ratio(rng: &mut ThreadRng, numerator: u32, denominator: u32) -> (hit: bool)
    requires
        denominator > 0,
        numerator <= denominator,
    ensures
        numerator == denominator ==> hit,
        numerator == 0 ==> !hit,
{
    rng.gen_ratio(numerator, denominator)
}

/// `Rng::gen_range` over the inclusive range `low..=high` of `i64`. It
/// panics on an empty range, so `low <= high` is required. Claimed of the
/// result: it lies in the range, both ends included.
#[verifier::external_body]
pub(crate) fn gen_range_inclusive(rng: &mut ThreadRng, low: i64, high: i64) -> (value: i64)
    requires
        low <= high,
    ensures
        low <= value <= high,
{
    rng.gen_range(low..=high)
}

} // verus!
