//! The random draws that the simulation makes, taken from `rand`'s thread-local generator.
use vstd::prelude::*;
use rand::Rng;

verus! {

/// Relies on `rand::random::<bool>`: a fair coin flip; nothing is promised of the outcome.
#[verifier::external_body]
pub(crate) fn coin() -> (r: bool) {
    rand::random::<bool>()
}

/// Relies on `rand::Rng::gen_range` over `0..n`: a value in the half-open range,
/// which `rand` documents (it panics on an empty range, hence `n > 0`).
#[verifier::external_body]
pub(crate) fn random_below(n: u64) -> (r: u64)
    requires
        n > 0,
    ensures
        r < n,
{
    rand::thread_rng().gen_range(0..n)
}

/// A uniformly drawn value in `lo..=hi`.
pub(crate) fn random_between(lo: i64, hi: i64) -> (r: i64)
    requires
        lo <= hi,
        hi - lo < u64::MAX,
    ensures
        lo <= r <= hi,
{
    let width: u64 = (hi as i128 - lo as i128 + 1) as u64;
    let k = random_below(width);
    (lo as i128 + k as i128) as i64
}

} // verus!
