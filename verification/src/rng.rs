//! Random draws.
use vstd::prelude::*;
use rand::Rng;

verus! {

/// One million: random fractions and probabilities are counted in millionths.
pub const PPM: u32 = 1000000;

/// A uniformly random number below `bound` (`rand::Rng::gen_range(0..bound)` on
/// the thread's generator). Of the outcome only its range is known.
#[verifier::external_body]
pub(crate) fn random_below(bound: u32) -> (r: u32)
    requires
        bound > 0,
    ensures
        r < bound,
{
    rand::thread_rng().gen_range(0..bound)
}

/// A uniformly random fraction in `[0, 1)`, in millionths.
pub fn random_fraction() -> (r: u32)
    ensures
        r < PPM,
{
    random_below(PPM)
}

} // verus!
