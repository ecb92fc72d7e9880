//! The pseudo-random source used to relocate the food.
use vstd::prelude::*;

verus! {

/// Relies on rand::random: draws a fresh pseudo-random value from the
/// thread-local generator. Nothing is promised of the value; callers must
/// hold for every outcome.
#[verifier::external_body]
pub(crate) fn random_u32() -> u32 {
    rand::random::<u32>()
}

} // verus!
