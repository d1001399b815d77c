use rand::RngExt;
use vstd::prelude::*;

verus! {

#[verifier::external_type_specification]
#[verifier::external_body]
pub struct ExStdRng(rand::rngs::StdRng);

/// A uniformly drawn integer of `low..=high`.
///
/// Trusted: `rand::rng().random_range(low..=high)`, which documents that it
/// draws a value of the given range and panics only on an empty range (ruled
/// out by the `requires`). Which value comes back is left open.
#[verifier::external_body]
pub(crate) fn random_in_range(low: i64, high: i64) -> (r: i64)
    requires
        low <= high,
    ensures
        low <= r <= high,
{
    rand::rng().random_range(low..=high)
}

/// A uniformly drawn index below `n`.
///
/// Trusted: `rand::rng().random_range(0..n)`; non-empty range by `requires`.
#[verifier::external_body]
pub(crate) fn random_index(n: usize) -> (r: usize)
    requires
        n > 0,
    ensures
        r < n,
{
    rand::rng().random_range(0..n)
}

/// A uniformly drawn index below `n`, taken from a caller-held generator.
///
/// Trusted: `StdRng::random_range(0..n)`; non-empty range by `requires`.
#[verifier::external_body]
pub(crate) fn random_index_from(rng: &mut rand::rngs::StdRng, n: usize) -> (r: usize)
    requires
        n > 0,
    ensures
        r < n,
{
    rng.random_range(0..n)
}

/// `true` with probability `numerator / denominator`.
///
/// Trusted: `rand::rng().random_ratio(numerator, denominator)`. Its
/// documentation promises `true` when the two are equal and `false` when the
/// numerator is zero, and a panic only when `denominator == 0` or
/// `numerator > denominator` (ruled out by the `requires`).
#[verifier::external_body]
pub(crate) fn random_chance(numerator: u32, denominator: u32) -> (r: bool)
    requires
        0 < denominator,
        numerator <= denominator,
    ensures
        numerator == denominator ==> r,
        numerator == 0 ==> !r,
{
    rand::rng().random_ratio(numerator, denominator)
}

} // verus!
