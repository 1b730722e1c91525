//! The one source of random numbers.
use vstd::prelude::*;

verus! {

/// Draws 32 random bits with `rand::random`, which takes them from the generator
/// that `rand` keeps for the calling thread. Nothing is claimed of the value. The
/// call returns for every state of the generator; it fails only where the system
/// cannot seed a thread's generator when the thread first draws.
#[verifier::external_body]
pub(crate) fn random_word() -> (word: u32) {
    rand::random()
}

} // verus!
