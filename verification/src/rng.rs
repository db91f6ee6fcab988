//! Trusted wrappers around the random draws of the `rand` crate.
//!
//! Every random choice the library makes goes through one of these three
//! functions; everything decided from the drawn values is verified code.

use vstd::prelude::*;

verus! {

/// Relies on `rand::Rng::gen_range` over `0..bound` (on `rand::thread_rng()`):
/// the range is non-empty, and the sampled value lies inside it.
#[verifier::external_body]
pub(crate) fn random_below_i32(bound: i32) -> (r: i32)
    requires
        bound >= 1,
    ensures
        0 <= r < bound,
{
    rand::Rng::gen_range(&mut rand::thread_rng(), 0..bound)
}

/// Relies on `rand::Rng::gen_range` over `0..len` (on `rand::thread_rng()`):
/// the range is non-empty, and the sampled value lies inside it.
#[verifier::external_body]
pub(crate) fn random_below_usize(len: usize) -> (r: usize)
    requires
        len >= 1,
    ensures
        r < len,
{
    rand::Rng::gen_range(&mut rand::thread_rng(), 0..len)
}

/// Relies on `rand::Rng::gen_ratio` (on `rand::thread_rng()`): a coin that is
/// true with probability `numerator / denominator`. Nothing is assumed of the
/// outcome beyond its being a bool, so callers are verified for either answer.
#[verifier::external_body]
pub(crate) fn random_chance(numerator: u32, denominator: u32) -> (r: bool)
    requires
        denominator >= 1,
        numerator <= denominator,
{
    rand::Rng::gen_ratio(&mut rand::thread_rng(), numerator, denominator)
}

} // verus!
