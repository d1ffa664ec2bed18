//! The one place the simulation draws randomness: a thin trusted wrapper
//! over the platform generator. Every function that consumes a draw takes
//! it as a plain value and is verified for every value the wrapper may
//! return.

use vstd::prelude::*;

use rand::Rng;

verus! {

/// Relies on rand::Rng::gen_range on the thread-local generator: for a
/// non-empty half-open range it returns a value inside the range. Nothing
/// more is assumed of the draw.
#[verifier::external_body]
pub(crate) fn roll_range(lo: u64, hi: u64) -> (r: u64)
    requires
        lo < hi,
    ensures
        lo <= r < hi,
{
    rand::thread_rng().gen_range(lo..hi)
}

} // verus!
