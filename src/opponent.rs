//! The opponent: a uniformly random pick among the legal moves.
use vstd::prelude::*;
use rand::seq::SliceRandom;
use crate::engine::Candidate;

verus! {

#[verifier::external_type_specification]
#[verifier::external_body]
pub struct ExStdRng(rand::rngs::StdRng);

/// Relies on `SeedableRng::seed_from_u64`: a generator whose draws follow
/// from the seed.
#[verifier::external_body]
pub(crate) fn seeded_rng(seed: u64) -> rand::rngs::StdRng {
    rand::SeedableRng::seed_from_u64(seed)
}

/// Relies on `SeedableRng::from_entropy`: a generator seeded by the system.
#[verifier::external_body]
pub(crate) fn fresh_rng() -> rand::rngs::StdRng {
    rand::SeedableRng::from_entropy()
}

/// Relies on `SliceRandom::choose`: one element of the slice, drawn
/// uniformly, and `None` only for an empty slice.
#[verifier::external_body]
fn choose_one(moves: &Vec<Candidate>, rng: &mut rand::rngs::StdRng) -> (r: Option<Candidate>)
    ensures
        r is None <==> moves@.len() == 0,
        r matches Some(m) ==> moves@.contains(m),
{
    moves.choose(rng).copied()
}

/// Picks the opponent's reply among the legal moves of the side to move.
pub fn choose_reply(moves: &Vec<Candidate>, rng: &mut rand::rngs::StdRng) -> (r: Candidate)
    requires
        moves@.len() > 0,
    ensures
        moves@.contains(r),
{
    match choose_one(moves, rng) {
        Some(m) => m,
        None => moves[0],
    }
}

} // verus!
