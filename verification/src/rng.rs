//! The one place the library draws randomness from the outside world.
use vstd::prelude::*;

use rand::Rng;

verus! {

/// Relies on `rand::thread_rng` and `rand::Rng::gen_range`: a sample drawn
/// from the half-open range below `n` is strictly less than `n`; the call
/// panics on an empty range, so `n` must be positive. Nothing more is
/// assumed of the sample: callers must be correct for every value below `n`.
#[verifier::external_body]
pub(crate) fn random_below(n: usize) -> (r: usize)
    requires
        n > 0,
    ensures
        r < n,
{
    rand::thread_rng().gen_range(0..n)
}

} // verus!
