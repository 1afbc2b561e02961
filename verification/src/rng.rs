//! The randomness source behind every sampling decision in the library.
//!
//! Nothing can be promised about which value comes back, so every caller is
//! verified against the range bound alone: the logic downstream holds for
//! every value the source may produce.

use rand::Rng;
use vstd::prelude::*;

verus! {

/// Relies on rand's `thread_rng` and `Rng::gen_range` over `start..stop`:
/// the sampled value lies in `[start, stop)`; the call panics on an empty
/// range, which the precondition rules out.
#[verifier::external_body]
pub(crate) fn get_random_int(start: usize, stop: usize) -> (r: usize)
    requires
        start < stop,
    ensures
        start <= r < stop,
{
    let mut rng = rand::thread_rng();
    rng.gen_range(start..stop)
}

} // verus!
