//! Random draws, taken from the `rand` crate behind trusted wrappers.

use vstd::prelude::*;

verus! {

/// Relies on rand's `Rng::gen_range` over a half-open integer range: it panics
/// on an empty range and otherwise returns a uniform value inside it. Nothing
/// more is assumed of which value comes back.
#[verifier::external_body]
pub(crate) fn rand_range_u64(lo: u64, hi: u64) -> (r: u64)
    requires
        lo < hi,
    ensures
        lo <= r < hi,
{
    rand::Rng::gen_range(&mut rand::thread_rng(), lo..hi)
}

/// Relies on rand's `Rng::gen_range` over a half-open integer range, as
/// `rand_range_u64` does, for signed bounds.
#[verifier::external_body]
pub(crate) fn rand_range_i64(lo: i64, hi: i64) -> (r: i64)
    requires
        lo < hi,
    ensures
        lo <= r < hi,
{
    rand::Rng::gen_range(&mut rand::thread_rng(), lo..hi)
}

} // verus!
