//! What a player sends to the table.

use vstd::prelude::*;

use crate::models::Card;
use crate::player::PlayerName;

verus! {

/// The side of an order.
#[derive(Debug, Clone, Copy, PartialEq, Eq, Structural)]
pub enum Direction {
    Buy,
    Sell,
}

/// A player's wish to buy or to sell one card of a suit at a price. An order
/// with the price zero asks for nothing.
#[derive(Debug, Clone, Copy, PartialEq, Eq, Structural)]
pub struct Order {
    pub player_name: PlayerName,
    pub price: usize,
    pub direction: Direction,
    pub card: Card,
}

} // verus!
