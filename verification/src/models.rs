//! The things on the table: suits, holdings, books, orders and events.

use vstd::prelude::*;

use crate::utils::CL;

pub mod book;
pub mod event;
pub mod inventory;
pub mod order;

verus! {

/// A suit. A round's deck holds forty cards of the four suits.
#[derive(Debug, Clone, Copy, Hash, PartialEq, Eq, Structural)]
pub enum Card {
    Spade,
    Club,
    Diamond,
    Heart,
}

impl Card {
    /// The other suit of the same colour. The goal suit of a round is the
    /// partner of its common suit.
    pub open spec fn partner(self) -> Card {
        match self {
            Card::Spade => Card::Club,
            Card::Club => Card::Spade,
            Card::Heart => Card::Diamond,
            Card::Diamond => Card::Heart,
        }
    }

    /// The two suits of the other colour: the red ones as (Diamond, Heart),
    /// the black ones as (Spade, Club).
    pub open spec fn rivals(self) -> (Card, Card) {
        match self {
            Card::Spade | Card::Club => (Card::Diamond, Card::Heart),
            Card::Heart | Card::Diamond => (Card::Spade, Card::Club),
        }
    }

    /// The colour in which the book of `column` is drawn when this suit is
    /// the one to set off.
    pub open spec fn book_color(self, column: Card) -> CL {
        if self == column {
            CL::LimeGreen
        } else {
            CL::DullTeal
        }
    }

    /// The suit at `index` in the order spades, clubs, diamonds, hearts; an
    /// index past the third stands for hearts.
    pub open spec fn at(index: int) -> Card {
        if index == 0 {
            Card::Spade
        } else if index == 1 {
            Card::Club
        } else if index == 2 {
            Card::Diamond
        } else {
            Card::Heart
        }
    }

    /// The suit at `index` in the order spades, clubs, diamonds, hearts.
    pub fn from_index(index: usize) -> (card: Card)
        ensures
            card == Card::at(index as int),
    {
        if index == 0 {
            Card::Spade
        } else if index == 1 {
            Card::Club
        } else if index == 2 {
            Card::Diamond
        } else {
            Card::Heart
        }
    }

    /// The three suits besides this one: its partner first, then its rivals.
    pub fn get_other_cards(&self) -> (others: (Card, Card, Card))
        ensures
            others == (self.partner(), self.rivals().0, self.rivals().1),
    {
        match self {
            Card::Spade => (Card::Club, Card::Diamond, Card::Heart),
            Card::Club => (Card::Spade, Card::Diamond, Card::Heart),
            Card::Heart => (Card::Diamond, Card::Spade, Card::Club),
            Card::Diamond => (Card::Heart, Card::Spade, Card::Club),
        }
    }

    /// The goal suit of a round whose common suit this is: its partner.
    pub fn get_goal_suit(&self) -> (goal: Card)
        ensures
            goal == self.partner(),
    {
        match self {
            Card::Spade => Card::Club,
            Card::Club => Card::Spade,
            Card::Heart => Card::Diamond,
            Card::Diamond => Card::Heart,
        }
    }

    /// The colours of the four books, in the order spades, clubs, diamonds,
    /// hearts, with this suit's book set off from the rest.
    pub fn get_book_colors(&self) -> (colors: (CL, CL, CL, CL))
        ensures
            colors == (
                self.book_color(Card::Spade),
                self.book_color(Card::Club),
                self.book_color(Card::Diamond),
                self.book_color(Card::Heart),
            ),
    {
        match self {
            Card::Spade => (CL::LimeGreen, CL::DullTeal, CL::DullTeal, CL::DullTeal),
            Card::Club => (CL::DullTeal, CL::LimeGreen, CL::DullTeal, CL::DullTeal),
            Card::Heart => (CL::DullTeal, CL::DullTeal, CL::DullTeal, CL::LimeGreen),
            Card::Diamond => (CL::DullTeal, CL::DullTeal, CL::LimeGreen, CL::DullTeal),
        }
    }
}

/// A suit, its partner and its two rivals are the four suits, each once:
/// they differ from one another, and any `other` suit is one of them.
pub proof fn lemma_suits_around(card: Card, other: Card)
    ensures
        card.partner() != card,
        card.partner().partner() == card,
        card.rivals().0 != card.rivals().1,
        card.rivals().0 != card && card.rivals().0 != card.partner(),
        card.rivals().1 != card && card.rivals().1 != card.partner(),
        other == card || other == card.partner() || other == card.rivals().0 || other
            == card.rivals().1,
{
}

} // verus!
