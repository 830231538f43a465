use vstd::prelude::*;

verus! {

/// The thread-local random number generator of `rand`.
#[verifier::external_type_specification]
#[verifier::external_body]
pub struct ExThreadRng(rand::rngs::ThreadRng);

/// Calls `rand::thread_rng`, a handle to the thread-local generator.
/// Nothing is claimed of the handle.
#[verifier::external_body]
pub(crate) fn thread_rng() -> rand::rngs::ThreadRng {
    rand::thread_rng()
}

/// Calls `Rng::gen_ratio`, which is true with probability
/// `numerator / denominator`. Claimed, as its documentation and source show:
/// it is always false when the numerator is zero and always true when the
/// numerator equals the denominator. It panics on a zero denominator or a
/// numerator above the denominator, which `requires` rules out. Which value a
/// call gives otherwise is left open.
#[verifier::external_body]
pub(crate) fn gen_ratio(rng: &mut rand::rngs::ThreadRng, numerator: u32, denominator: u32) -> (r: bool)
    requires
        0 < denominator,
        numerator <= denominator,
    ensures
        numerator == 0 ==> !r,
        numerator == denominator ==> r,
{
    rand::Rng::gen_ratio(rng, numerator, denominator)
}

/// Calls `Rng::gen_range` on `u32`, a uniform draw from `low` up to but not
/// including `high`. Claimed: the result lies in that range. It panics when
/// `low >= high`, which `requires` rules out. Which value comes is left open.
#[verifier::external_body]
pub(crate) fn gen_range(rng: &mut rand::rngs::ThreadRng, low: u32, high: u32) -> (r: u32)
    requires
        low < high,
    ensures
        low <= r < high,
{
    rand::Rng::gen_range(rng, low, high)
}

} // verus!
