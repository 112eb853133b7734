//! Randomness at the library's edge: the random peer choice and the fresh
//! handshake nonce. Both come from the operating system's entropy source
//! through the `rand` crate.

use vstd::prelude::*;
use rand::seq::SliceRandom;
use rand::Rng;

verus! {

/// Relies on rand's `SliceRandom::choose` with `OsRng`: it returns a
/// reference to one element of the slice, or `None` only when the slice is
/// empty. Which element comes back is random; every outcome is one of the
/// candidates.
#[verifier::external_body]
pub(crate) fn choose_candidate(candidates: &Vec<String>) -> (r: String)
    requires
        candidates@.len() > 0,
    ensures
        candidates@.map_values(|s: String| s@).contains(r@),
{
    candidates.choose(&mut rand::rngs::OsRng).unwrap().clone()
}

/// Relies on rand's `Rng::gen` with `OsRng`: a fresh random value. Nothing
/// holds of the result beyond its type.
#[verifier::external_body]
pub(crate) fn random_nonce() -> u64 {
    rand::rngs::OsRng.gen()
}

} // verus!
