//! Chance. Every draw of the crate is made here, on a generator that the
//! caller hands in, and nothing is proved of a draw but its range.

use rand::rngs::StdRng;
use rand::seq::SliceRandom;
use rand::Rng;
use vstd::prelude::*;

use crate::models::Card;

verus! {

/// The generator of `rand`. Its state is closed to the proofs.
#[verifier::external_type_specification]
#[verifier::external_body]
pub struct ExStdRng(rand::rngs::StdRng);

/// Calls `Rng::gen_range` of `rand` on the closed range from `low` to
/// `high`. The contract claims only that the number drawn lies in that
/// range; an empty range, on which `gen_range` panics, is left out.
#[verifier::external_body]
pub(crate) fn draw_between(rng: &mut StdRng, low: u64, high: u64) -> (drawn: u64)
    requires
        low <= high,
    ensures
        low <= drawn <= high,
{
    rng.gen_range(low..=high)
}

/// Calls `Rng::gen` of `rand` for a `bool`. Nothing is claimed of the
/// result.
#[verifier::external_body]
pub(crate) fn flip(rng: &mut StdRng) -> (heads: bool) {
    rng.gen::<bool>()
}

/// Calls `SliceRandom::shuffle` of `rand` on the cards of `deck`. The
/// contract claims that the deck holds the same cards after it, each as
/// often as before, and nothing of their order.
#[verifier::external_body]
pub(crate) fn shuffle(deck: &mut Vec<Card>, rng: &mut StdRng)
    ensures
        final(deck)@.to_multiset() == old(deck)@.to_multiset(),
{
    deck.shuffle(rng)
}

} // verus!
