//! The players: who they are, what they hear, and how they quote.

use vstd::prelude::*;

use crate::match_maker::round::ROUND_SECONDS;
use crate::models::book::Books;
use crate::models::event::{dealt_to, Event, Trade};
use crate::models::inventory::Inventory;
use crate::models::order::Order;

pub mod event_driven;
pub mod generic;
pub mod laws;
pub mod tilt;

verus! {

/// The name under which a player sits at the table. A player's name is also
/// the name of its policy.
#[derive(Debug, Clone, Copy, Hash, PartialEq, Eq, Structural)]
pub enum PlayerName {
    Spread,
    Seller,
    Taker,
    Noisy,
    WildestDreams,
    PickOff,
    TiltInventory,
    PrayingMantis,
    TheHoarder,
}

/// The milliseconds for which a player rests between two looks at the table
/// while no round is on.
pub const IDLE_MILLIS: u64 = 1000;

/// The seconds that are left of a round of which `elapsed` seconds have
/// passed: none once the round's time is over.
pub open spec fn time_left(elapsed: u64) -> u64 {
    if elapsed <= ROUND_SECONDS {
        (ROUND_SECONDS - elapsed) as u64
    } else {
        0
    }
}

/// The seconds that are left of a round of which `elapsed` seconds have
/// passed.
pub fn seconds_left(elapsed: u64) -> (left: u64)
    ensures
        left == time_left(elapsed),
{
    if elapsed <= ROUND_SECONDS {
        ROUND_SECONDS - elapsed
    } else {
        0
    }
}

/// What a player does at one look at the table: the orders it sends, in
/// their order, and the milliseconds for which it rests after them.
pub struct Tick {
    pub orders: Vec<Order>,
    pub sleep_millis: u64,
}

/// Appends the orders of `more` to `orders`.
pub fn extend_orders(orders: &mut Vec<Order>, more: &Vec<Order>)
    ensures
        final(orders)@ == old(orders)@ + more@,
{
    let mut at: usize = 0;
    proof {
        assert(orders@ =~= old(orders)@ + more@.take(0));
    }
    while at < more.len()
        invariant
            at <= more.len(),
            orders@ == old(orders)@ + more@.take(at as int),
        decreases more.len() - at,
    {
        orders.push(more[at]);
        at = at + 1;
        proof {
            assert(orders@ =~= old(orders)@ + more@.take(at as int));
        }
    }
    proof {
        assert(more@.take(more.len() as int) =~= more@);
    }
}

/// The holding of `name` after `trade`: one card less of the suit if `name`
/// sold, one more if `name` bought, and the same where `name` did both or
/// neither. A count that cannot move, because the holding has fallen out of
/// step with the table, stays.
pub open spec fn holding_after(holding: Inventory, name: PlayerName, trade: Trade) -> Inventory {
    let sold = if trade.seller == name && holding.can_change(trade.card, -1) {
        holding.changed(trade.card, -1)
    } else {
        holding
    };
    if trade.buyer == name && sold.can_change(trade.card, 1) {
        sold.changed(trade.card, 1)
    } else {
        sold
    }
}

/// What a player knows of the table from the events it has heard.
pub struct Mirror {
    pub inventory: Inventory,
    pub books: Books,
    pub trades: Vec<Trade>,
    pub trading: bool,
}

/// What a player knows of the table, as the rules see it.
#[verifier::ext_equal]
pub struct Knowledge {
    /// The player's own holding.
    pub inventory: Inventory,
    /// The four books as they were last told.
    pub books: Books,
    /// The trades that were told, the player's own and the others', oldest
    /// first.
    pub trades: Seq<Trade>,
    /// Whether a round is on. A player sends no order while none is.
    pub trading: bool,
}

impl Knowledge {
    /// What a player knows before it has heard anything.
    pub open spec fn blank() -> Knowledge {
        Knowledge {
            inventory: Inventory { spades: 0, clubs: 0, diamonds: 0, hearts: 0 },
            books: Books::fresh(),
            trades: Seq::empty(),
            trading: false,
        }
    }

    /// Whether the player `name` can take `event` in: a deal must hold a
    /// hand for it.
    pub open spec fn hears(name: PlayerName, event: Event) -> bool {
        event matches Event::DealCards(deal) ==> dealt_to(deal@, name) is Some
    }

    /// What the player `name` knows after `event`. A deal replaces the
    /// holding and opens the round. An update replaces the books and, where
    /// it tells a trade, adds the trade to those heard and moves the holding
    /// if the trade was the player's. The end of the round closes it.
    pub open spec fn after_event(self, name: PlayerName, event: Event) -> Knowledge {
        match event {
            Event::Update(update) => Knowledge {
                inventory: match update.trade {
                    Some(trade) => holding_after(self.inventory, name, trade),
                    None => self.inventory,
                },
                books: update.books(),
                trades: match update.trade {
                    Some(trade) => self.trades.push(trade),
                    None => self.trades,
                },
                ..self
            },
            Event::DealCards(deal) => Knowledge {
                inventory: dealt_to(deal@, name)->Some_0,
                trading: true,
                ..self
            },
            Event::EndRound => Knowledge { trading: false, ..self },
        }
    }
}

impl View for Mirror {
    type V = Knowledge;

    open spec fn view(&self) -> Knowledge {
        Knowledge {
            inventory: self.inventory,
            books: self.books,
            trades: self.trades@,
            trading: self.trading,
        }
    }
}

/// The hand that `deal` holds for `name`, if it holds one.
pub fn find_hand(deal: &Vec<(PlayerName, Inventory)>, name: PlayerName) -> (hand: Option<
    Inventory,
>)
    ensures
        hand == dealt_to(deal@, name),
{
    let mut at: usize = 0;
    proof {
        assert(deal@.skip(0) =~= deal@);
    }
    while at < deal.len()
        invariant
            at <= deal.len(),
            dealt_to(deal@, name) == dealt_to(deal@.skip(at as int), name),
        decreases deal.len() - at,
    {
        let entry = deal[at];
        proof {
            assert(deal@.skip(at as int)[0] == entry);
            assert(deal@.skip(at as int).drop_first() =~= deal@.skip(at as int + 1));
        }
        if entry.0 == name {
            return Some(entry.1);
        }
        at = at + 1;
    }
    None
}

/// Whether the player `name` can take `event` in.
pub fn can_hear(name: PlayerName, event: &Event) -> (ok: bool)
    ensures
        ok == Knowledge::hears(name, *event),
{
    match event {
        Event::DealCards(deal) => find_hand(deal, name).is_some(),
        _ => true,
    }
}

/// Moves `holding` as `trade` moved the holding of `name` at the table.
pub fn apply_trade(holding: &mut Inventory, name: PlayerName, trade: Trade)
    ensures
        *final(holding) == holding_after(*old(holding), name, trade),
{
    if trade.seller == name {
        holding.change(trade.card, -1);
    }
    if trade.buyer == name {
        holding.change(trade.card, 1);
    }
}

impl Mirror {
    /// The mirror of a player that has heard nothing yet.
    pub fn new() -> (mirror: Self)
        ensures
            mirror@ == Knowledge::blank(),
    {
        Self { inventory: Inventory::new(), books: Books::new(), trades: Vec::new(), trading: false }
    }

    /// Takes in one event for the player `name`, and says whether a round
    /// began with it: the player's clock for the round starts then.
    pub fn listen(&mut self, name: PlayerName, event: &Event) -> (round_began: bool)
        requires
            Knowledge::hears(name, *event),
        ensures
            final(self)@ == old(self)@.after_event(name, *event),
            round_began == (*event is DealCards),
    {
        match event {
            Event::Update(update) => {
                if let Some(trade) = update.trade {
                    self.trades.push(trade);
                    apply_trade(&mut self.inventory, name, trade);
                }
                self.books = Books {
                    spades: update.spades,
                    clubs: update.clubs,
                    diamonds: update.diamonds,
                    hearts: update.hearts,
                };
                false
            },
            Event::DealCards(deal) => {
                match find_hand(deal, name) {
                    Some(hand) => {
                        self.inventory = hand;
                    },
                    None => {},
                }
                self.trading = true;
                true
            },
            Event::EndRound => {
                self.trading = false;
                false
            },
        }
    }
}

} // verus!
