//! A verified engine for automated rounds of the card game Figgie.
//!
//! The crate holds the rules of the table and nothing that waits or talks:
//! the order books and the matching of orders, the deal, the antes and the
//! settlement of the pot, the way a player mirrors the table from the events
//! it hears, and the quoting policies of the stock players. Whoever drives it
//! owns the channels and the clock, hands in what arrived, and performs what
//! comes back.

pub mod match_maker;
pub mod models;
pub mod player;
pub mod random;
pub mod utils;

pub use crate::match_maker::matching::Rejection;
pub use crate::match_maker::round::Action;
pub use crate::match_maker::settlement::Settlement;
pub use crate::match_maker::{MatchMaker, Phase, Table};
pub use crate::models::book::{Book, Books, Quote};
pub use crate::models::event::{Event, Trade, Update};
pub use crate::models::inventory::Inventory;
pub use crate::models::order::{Direction, Order};
pub use crate::models::Card;
pub use crate::player::event_driven::{EventDrivenPlayer, Reaction};
pub use crate::player::generic::GenericPlayer;
pub use crate::player::tilt::TiltInventory;
pub use crate::player::{Knowledge, Mirror, PlayerName, Tick};
pub use crate::utils::CL;
