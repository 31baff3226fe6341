//! The source of randomness.

use vstd::prelude::*;

verus! {

/// Draws a whole number between two bounds with `nannou::rand::random_range`,
/// which nannou hands on from its core crate.
///
/// That function swaps bounds that are given in descending order and asks the
/// thread's generator for a value of the half-open range from the lower bound
/// to the upper: the lower bound may be drawn, the upper never is. Equal
/// bounds make the range empty, on which the generator panics, so they are
/// excluded here. Nothing is claimed of which value of the range comes back,
/// and nothing here is proved: the contract is taken on trust.
#[verifier::external_body]
pub(crate) fn random_range(min: i64, max: i64) -> (r: i64)
    requires
        min != max,
    ensures
        min < max ==> min <= r < max,
        max < min ==> max <= r < min,
{
    nannou::rand::random_range(min, max)
}

} // verus!
