//! The randomness boundary: the spawn scheduler draws its choices from
//! the `rand` crate through the trusted declarations here, and everything
//! downstream is verified for every value the draws can produce.

use vstd::prelude::*;

verus! {

/// The `rand` thread-local generator handle, opaque to verification.
#[verifier::external_type_specification]
#[verifier::external_body]
pub struct ExThreadRng(rand::rngs::ThreadRng);

/// Relies on rand::thread_rng: returns a handle to the thread-local
/// generator. Nothing is promised of the values it will produce.
pub assume_specification[ rand::thread_rng ]() -> rand::rngs::ThreadRng;

/// Relies on rand::Rng::gen_range on a half-open `i64` range: the sample
/// lies in `[lo, hi)`. The call panics on an empty range, so one is
/// ruled out here.
#[verifier::external_body]
pub(crate) fn gen_in_range(rng: &mut rand::rngs::ThreadRng, lo: i64, hi: i64) -> (r: i64)
    requires
        lo < hi,
    ensures
        lo <= r < hi,
{
    rand::Rng::gen_range(rng, lo..hi)
}

} // verus!
