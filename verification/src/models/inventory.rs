//! What a player holds of each suit.

use vstd::prelude::*;

use crate::models::Card;

verus! {

/// How often `card` occurs among `cards`.
pub open spec fn occurrences(cards: Seq<Card>, card: Card) -> nat {
    cards.to_multiset().count(card)
}

/// The holding that is made of exactly `cards`.
pub open spec fn hand_of(cards: Seq<Card>) -> Inventory {
    Inventory {
        spades: occurrences(cards, Card::Spade) as usize,
        clubs: occurrences(cards, Card::Club) as usize,
        diamonds: occurrences(cards, Card::Diamond) as usize,
        hearts: occurrences(cards, Card::Heart) as usize,
    }
}

/// A holding: a count for each of the four suits.
#[derive(Debug, Clone, Copy, PartialEq, Eq, Structural)]
pub struct Inventory {
    pub spades: usize,
    pub clubs: usize,
    pub diamonds: usize,
    pub hearts: usize,
}

impl Inventory {
    /// The count held of `card`.
    pub open spec fn held(self, card: Card) -> int {
        match card {
            Card::Spade => self.spades as int,
            Card::Club => self.clubs as int,
            Card::Diamond => self.diamonds as int,
            Card::Heart => self.hearts as int,
        }
    }

    /// The number of cards held, all suits together.
    pub open spec fn size(self) -> int {
        self.spades + self.clubs + self.diamonds + self.hearts
    }

    /// This holding with the count of `card` set to `count`.
    pub open spec fn with(self, card: Card, count: usize) -> Inventory {
        match card {
            Card::Spade => Inventory { spades: count, ..self },
            Card::Club => Inventory { clubs: count, ..self },
            Card::Diamond => Inventory { diamonds: count, ..self },
            Card::Heart => Inventory { hearts: count, ..self },
        }
    }

    /// Whether the count of `card` can move by `delta`: it may neither fall
    /// below zero nor leave the machine's range.
    pub open spec fn can_change(self, card: Card, delta: int) -> bool {
        0 <= self.held(card) + delta <= usize::MAX
    }

    /// This holding with the count of `card` moved by `delta`.
    pub open spec fn changed(self, card: Card, delta: int) -> Inventory {
        self.with(card, (self.held(card) + delta) as usize)
    }

    /// A holding of no cards.
    pub fn new() -> (empty: Self)
        ensures
            empty == (Inventory { spades: 0, clubs: 0, diamonds: 0, hearts: 0 }),
    {
        Self { spades: 0, clubs: 0, diamonds: 0, hearts: 0 }
    }

    /// Adds `cards` to the holding, each to the count of its suit.
    pub fn count(&mut self, cards: Vec<Card>)
        requires
            forall|card: Card|
                old(self).held(card) + #[trigger] occurrences(cards@, card) <= usize::MAX,
        ensures
            forall|card: Card|
                final(self).held(card) == old(self).held(card) + #[trigger] occurrences(
                    cards@,
                    card,
                ),
    {
        let ghost before = *self;
        let mut i: usize = 0;
        proof {
            broadcast use vstd::seq_lib::group_to_multiset_ensures;

            assert(cards@.take(0) =~= Seq::<Card>::empty());
        }
        while i < cards.len()
            invariant
                i <= cards.len(),
                forall|card: Card|
                    before.held(card) + #[trigger] occurrences(cards@, card) <= usize::MAX,
                forall|card: Card|
                    self.held(card) == before.held(card) + #[trigger] occurrences(
                        cards@.take(i as int),
                        card,
                    ),
            decreases cards.len() - i,
        {
            let card = cards[i];
            proof {
                lemma_occurrences_step(cards@, i as int);
                lemma_occurrences_prefix(cards@, i as int + 1, card);
                assert(occurrences(cards@.take(i as int + 1), card) == occurrences(
                    cards@.take(i as int),
                    card,
                ) + 1);
                assert(occurrences(cards@, card) >= 1);
            }
            match card {
                Card::Spade => { self.spades = self.spades + 1; },
                Card::Club => { self.clubs = self.clubs + 1; },
                Card::Diamond => { self.diamonds = self.diamonds + 1; },
                Card::Heart => { self.hearts = self.hearts + 1; },
            }
            i = i + 1;
        }
        proof {
            assert(cards@.take(cards.len() as int) =~= cards@);
        }
    }

    /// Moves the count of `card` by `delta` where the result is a count, and
    /// says whether it did. A move that would leave the range changes
    /// nothing.
    pub fn change(&mut self, card: Card, delta: isize) -> (applied: bool)
        ensures
            applied == old(self).can_change(card, delta as int),
            applied ==> *final(self) == old(self).changed(card, delta as int),
            !applied ==> *final(self) == *old(self),
    {
        let current = self.get(&card);
        let next: usize;
        if delta >= 0 {
            let up: usize = delta as usize;
            if current > usize::MAX - up {
                return false;
            }
            next = current + up;
        } else {
            let down: usize = (-(delta + 1)) as usize + 1;
            if current < down {
                return false;
            }
            next = current - down;
        }
        match card {
            Card::Spade => { self.spades = next; },
            Card::Club => { self.clubs = next; },
            Card::Diamond => { self.diamonds = next; },
            Card::Heart => { self.hearts = next; },
        }
        true
    }

    /// The count held of `card`.
    pub fn get(&self, card: &Card) -> (count: usize)
        ensures
            count == self.held(*card),
    {
        match card {
            Card::Spade => self.spades,
            Card::Club => self.clubs,
            Card::Diamond => self.diamonds,
            Card::Heart => self.hearts,
        }
    }
}

/// One card more in a prefix counts once more for its own suit and not at
/// all for the others.
pub proof fn lemma_occurrences_step(cards: Seq<Card>, i: int)
    requires
        0 <= i < cards.len(),
    ensures
        forall|card: Card|
            #[trigger] occurrences(cards.take(i + 1), card) == occurrences(cards.take(i), card) + (if card
                == cards[i] {
                1int
            } else {
                0int
            }),
{
    broadcast use vstd::seq_lib::group_to_multiset_ensures;

    assert(cards.take(i + 1) =~= cards.take(i).push(cards[i]));
}

/// A prefix holds no more of a suit than the whole.
pub proof fn lemma_occurrences_prefix(cards: Seq<Card>, n: int, card: Card)
    requires
        0 <= n <= cards.len(),
    ensures
        occurrences(cards.take(n), card) <= occurrences(cards, card),
    decreases cards.len() - n,
{
    if n < cards.len() {
        lemma_occurrences_step(cards, n);
        lemma_occurrences_prefix(cards, n + 1, card);
    } else {
        assert(cards.take(n) =~= cards);
    }
}

/// Two rows of cards laid end to end hold of each suit what they hold
/// apart.
pub proof fn lemma_occurrences_concat(front: Seq<Card>, back: Seq<Card>, card: Card)
    ensures
        occurrences(front + back, card) == occurrences(front, card) + occurrences(back, card),
{
    broadcast use vstd::multiset::group_multiset_axioms;

    vstd::seq_lib::lemma_multiset_commutative(front, back);
}

/// A row of cards holds no more of a suit than it has cards.
pub proof fn lemma_occurrences_bound(cards: Seq<Card>, card: Card)
    ensures
        occurrences(cards, card) <= cards.len(),
    decreases cards.len(),
{
    broadcast use vstd::seq_lib::group_to_multiset_ensures;

    if cards.len() > 0 {
        let n = cards.len() - 1;
        lemma_occurrences_step(cards, n);
        assert(cards.take(n + 1) =~= cards);
        lemma_occurrences_bound(cards.take(n), card);
    } else {
        assert(cards =~= Seq::<Card>::empty());
    }
}

/// A row of as many cards as the machine can count makes a holding with
/// the count of each suit in it.
pub proof fn lemma_hand_of(cards: Seq<Card>, card: Card)
    requires
        cards.len() <= usize::MAX,
    ensures
        hand_of(cards).held(card) == occurrences(cards, card),
{
    lemma_occurrences_bound(cards, Card::Spade);
    lemma_occurrences_bound(cards, Card::Club);
    lemma_occurrences_bound(cards, Card::Diamond);
    lemma_occurrences_bound(cards, Card::Heart);
}

} // verus!
