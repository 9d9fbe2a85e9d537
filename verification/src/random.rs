//! Random numbers from the thread-local generator of `rand`.

use vstd::prelude::*;
use rand::Rng;

verus! {

/// `rand::rng().random_range(0..=hi)`: a uniformly random number up to `hi`.
#[verifier::external_body]
pub(crate) fn random_up_to(hi: usize) -> (r: usize)
    ensures
        r <= hi,
{
    rand::rng().random_range(0..=hi)
}

/// `rand::rng().random_range(0..len)`: a uniformly random index below `len`
/// (the range must not be empty, or the call panics).
#[verifier::external_body]
pub(crate) fn random_index(len: usize) -> (r: usize)
    requires
        len > 0,
    ensures
        r < len,
{
    rand::rng().random_range(0..len)
}

/// `rand::rng().random_range(lo..=hi)`: a uniformly random number from `lo` to `hi`
/// (the range must not be empty, or the call panics).
#[verifier::external_body]
pub(crate) fn random_between(lo: u32, hi: u32) -> (r: u32)
    requires
        lo <= hi,
    ensures
        lo <= r <= hi,
{
    rand::rng().random_range(lo..=hi)
}

/// `rand::rng().random_range(lo..=hi)` over ticks: a uniformly random number from
/// `lo` to `hi` (the range must not be empty, or the call panics).
#[verifier::external_body]
pub(crate) fn random_u64_between(lo: u64, hi: u64) -> (r: u64)
    requires
        lo <= hi,
    ensures
        lo <= r <= hi,
{
    rand::rng().random_range(lo..=hi)
}

} // verus!
