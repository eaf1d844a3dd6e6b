//! What the table tells the players.

use vstd::prelude::*;

use crate::models::book::{Book, Books};
use crate::models::inventory::Inventory;
use crate::models::Card;
use crate::player::PlayerName;

verus! {

/// One card of a suit that went from the seller to the buyer at a price.
#[derive(Debug, Clone, Copy, PartialEq, Eq, Structural)]
pub struct Trade {
    pub card: Card,
    pub price: usize,
    pub buyer: PlayerName,
    pub seller: PlayerName,
}

/// The four books as they stand after an order, and the trade that the order
/// made, if it made one.
#[derive(Debug, Clone, Copy, PartialEq, Eq)]
pub struct Update {
    pub spades: Book,
    pub clubs: Book,
    pub diamonds: Book,
    pub hearts: Book,
    pub trade: Option<Trade>,
}

impl Update {
    /// The books that the update tells.
    pub open spec fn books(self) -> Books {
        Books {
            spades: self.spades,
            clubs: self.clubs,
            diamonds: self.diamonds,
            hearts: self.hearts,
        }
    }
}

/// The hand that `deal` gives to `name`: that of the first entry under the
/// name.
pub open spec fn dealt_to(deal: Seq<(PlayerName, Inventory)>, name: PlayerName) -> Option<
    Inventory,
>
    decreases deal.len(),
{
    if deal.len() == 0 {
        None
    } else if deal[0].0 == name {
        Some(deal[0].1)
    } else {
        dealt_to(deal.drop_first(), name)
    }
}

/// What the match maker tells every player.
#[derive(Debug, Clone, PartialEq, Eq)]
pub enum Event {
    /// An order was taken in: the books after it.
    Update(Update),
    /// A round begins: the hand of each player.
    DealCards(Vec<(PlayerName, Inventory)>),
    /// The round is over: trading stops.
    EndRound,
}

} // verus!
