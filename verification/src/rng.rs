use vstd::prelude::*;

verus! {

/// Relies on rand::random::<bool>: a fair coin from the thread-local
/// generator. Nothing can be promised of the outcome.
#[verifier::external_body]
pub fn fair_coin() -> bool {
    rand::random::<bool>()
}

/// Relies on rand::random_range: a uniform sample from `lo..=hi`, which
/// panics only on an empty range. Every outcome lies within the bounds.
#[verifier::external_body]
pub fn sample_range(lo: i32, hi: i32) -> (r: i32)
    requires
        lo <= hi,
    ensures
        lo <= r <= hi,
{
    rand::random_range(lo..=hi)
}

/// Relies on rand::random_ratio: true with probability
/// `numerator/denominator`; panics if the denominator is zero or the
/// numerator exceeds it. A ratio of zero is always false, a ratio of one
/// always true.
#[verifier::external_body]
pub fn sample_ratio(numerator: u32, denominator: u32) -> (r: bool)
    requires
        0 < denominator,
        numerator <= denominator,
    ensures
        numerator == 0 ==> !r,
        numerator == denominator ==> r,
{
    rand::random_ratio(numerator, denominator)
}

} // verus!
