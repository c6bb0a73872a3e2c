//! Chance, and small helpers shared by the rest of the crate.
use rand::Rng;
use vstd::prelude::*;

pub mod ships;
pub mod terminal;

verus! {

/// A fair coin.
///
/// Calls `Rng::gen_ratio(1, 2)` on `rand::thread_rng()`, which returns `true`
/// with probability one half.  Nothing is claimed about the value: each call
/// may return either.
#[verifier::external_body]
pub fn random_50_50() -> bool {
    let mut rng = rand::thread_rng();
    rng.gen_ratio(1, 2)
}

/// An index below `bound`, each with the same probability.
///
/// Calls `Rng::gen_range(0..bound)` on `rand::thread_rng()`.  That call
/// panics on an empty range, hence `bound > 0`; its result lies in the range
/// it is given, and that is all the contract claims.
#[verifier::external_body]
pub(crate) fn random_index(bound: usize) -> (index: usize)
    requires
        bound > 0,
    ensures
        index < bound,
{
    let mut rng = rand::thread_rng();
    rng.gen_range(0..bound)
}

/// Any `usize`, each with the same probability.
///
/// Calls `rand::random::<usize>()`.  Nothing is claimed about the value.
#[verifier::external_body]
pub(crate) fn random_number() -> usize {
    rand::random::<usize>()
}

} // verus!
