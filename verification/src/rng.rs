//! The simulation's only source of randomness: where a fresh asteroid
//! appears vertically.
use vstd::prelude::*;

verus! {

/// Relies on rand::random: an arbitrary u32 from the thread-local
/// generator; nothing is assumed of its value, so everything computed from
/// it is verified for every value.
#[verifier::external_body]
pub(crate) fn random_u32() -> u32 {
    rand::random()
}

} // verus!
