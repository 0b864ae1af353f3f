use vstd::prelude::*;
use rand::rngs::StdRng;
use rand::Rng;

verus! {

/// The seeded generator that every random draw comes from.
#[verifier::external_type_specification]
#[verifier::external_body]
pub struct ExStdRng(StdRng);

/// Relies on rand::Rng::random_range over an inclusive range: the result lies
/// in `[lo, hi]`; the range is never empty here.
#[verifier::external_body]
pub(crate) fn draw_in(rng: &mut StdRng, lo: i64, hi: i64) -> (r: i64)
    requires
        lo <= hi,
    ensures
        lo <= r <= hi,
{
    rng.random_range(lo..=hi)
}

/// Relies on rand::Rng::random_ratio: true with probability `num / den`; never
/// true for a zero numerator, always true when `num == den`.
#[verifier::external_body]
pub(crate) fn draw_ratio(rng: &mut StdRng, num: u32, den: u32) -> (r: bool)
    requires
        0 < den,
        num <= den,
    ensures
        num == 0 ==> !r,
        num == den ==> r,
{
    rng.random_ratio(num, den)
}

} // verus!
