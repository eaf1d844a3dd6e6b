//! The reactive player: it acts on each update as it hears it.

use vstd::prelude::*;

use crate::models::book::Book;
use crate::models::event::Event;
use crate::models::order::{Direction, Order};
use crate::models::Card;
use crate::player::{extend_orders, Knowledge, Mirror, PlayerName};

verus! {

/// The price below which the pick-off policy lifts an ask: less as the
/// round runs out, and nothing in its last twenty seconds.
pub open spec fn max_price(seconds_left: u64) -> usize {
    if seconds_left < 20 {
        0
    } else if seconds_left < 40 {
        1
    } else if seconds_left < 60 {
        2
    } else if seconds_left < 120 {
        3
    } else {
        4
    }
}

/// The pick-off policy for one suit, against an ask that is not the
/// player's own: holding two or fewer it lifts an ask that is cheap for the
/// time of the round, and holding any it offers one below an ask above
/// five.
pub open spec fn picks_off(
    name: PlayerName,
    seconds_left: u64,
    inventory: usize,
    book: Book,
    card: Card,
) -> Seq<Order> {
    let free = !book.ask.owned_by(name);
    (if inventory <= 2 && book.ask.price < max_price(seconds_left) && free {
        seq![Order { player_name: name, price: book.ask.price, direction: Direction::Buy, card }]
    } else {
        Seq::empty()
    }) + (if inventory > 0 && book.ask.price > 5 && free {
        seq![
            Order {
                player_name: name,
                price: (book.ask.price - 1) as usize,
                direction: Direction::Sell,
                card,
            },
        ]
    } else {
        Seq::empty()
    })
}

/// The most orders with which a reactive player answers one event: two for
/// each suit. An answer without a bound could feed on the updates that it
/// brings about.
pub const MOST_ORDERS_PER_EVENT: usize = 8;

/// What a reactive player does on one event: the orders it sends, in their
/// order, and whether a round began with the event, at which the player's
/// clock for the round starts.
pub struct Reaction {
    pub orders: Vec<Order>,
    pub round_began: bool,
}

/// A player of the reactive kind.
pub struct EventDrivenPlayer {
    pub name: PlayerName,
    pub verbose: bool,
    pub mirror: Mirror,
}

impl EventDrivenPlayer {
    /// What the player sends on `event`, knowing `after` once it has taken
    /// the event in: on an update, while a round is on, the quotes of the
    /// pick-off policy for spades, clubs, diamonds and hearts where that is
    /// the player's policy, and nothing else.
    pub open spec fn response(
        name: PlayerName,
        after: Knowledge,
        event: Event,
        seconds_left: u64,
    ) -> Seq<Order> {
        if event is Update && after.trading && name == PlayerName::PickOff {
            picks_off(
                name,
                seconds_left,
                after.inventory.spades,
                after.books.spades,
                Card::Spade,
            ) + picks_off(name, seconds_left, after.inventory.clubs, after.books.clubs, Card::Club)
                + picks_off(
                name,
                seconds_left,
                after.inventory.diamonds,
                after.books.diamonds,
                Card::Diamond,
            ) + picks_off(
                name,
                seconds_left,
                after.inventory.hearts,
                after.books.hearts,
                Card::Heart,
            )
        } else {
            Seq::empty()
        }
    }

    /// A player that has heard nothing yet.
    pub fn new(player_name: PlayerName, verbose: bool) -> (player: Self)
        ensures
            player.name == player_name,
            player.verbose == verbose,
            player.mirror@ == Knowledge::blank(),
    {
        Self { name: player_name, verbose, mirror: Mirror::new() }
    }

    /// Takes in one event with `seconds_left` of the round to go, and
    /// answers it.
    pub fn start(&mut self, event: &Event, seconds_left: u64) -> (reaction: Reaction)
        requires
            Knowledge::hears(old(self).name, *event),
        ensures
            final(self).name == old(self).name,
            final(self).verbose == old(self).verbose,
            final(self).mirror@ == old(self).mirror@.after_event(old(self).name, *event),
            reaction.round_began == (*event is DealCards),
            reaction.orders@ == Self::response(
                old(self).name,
                final(self).mirror@,
                *event,
                seconds_left,
            ),
            reaction.orders@.len() <= MOST_ORDERS_PER_EVENT,
            !final(self).mirror.trading ==> reaction.orders@.len() == 0,
    {
        let round_began = self.mirror.listen(self.name, event);
        let mut orders: Vec<Order> = Vec::new();
        let on_update = match event {
            Event::Update(_) => true,
            _ => false,
        };
        if on_update && self.mirror.trading {
            match self.name {
                PlayerName::PickOff => {
                    let inventory = self.mirror.inventory;
                    let books = self.mirror.books;
                    let spades = self.pick_off(
                        seconds_left,
                        inventory.spades,
                        books.spades,
                        Card::Spade,
                    );
                    let clubs = self.pick_off(
                        seconds_left,
                        inventory.clubs,
                        books.clubs,
                        Card::Club,
                    );
                    let diamonds = self.pick_off(
                        seconds_left,
                        inventory.diamonds,
                        books.diamonds,
                        Card::Diamond,
                    );
                    let hearts = self.pick_off(
                        seconds_left,
                        inventory.hearts,
                        books.hearts,
                        Card::Heart,
                    );
                    extend_orders(&mut orders, &spades);
                    extend_orders(&mut orders, &clubs);
                    extend_orders(&mut orders, &diamonds);
                    extend_orders(&mut orders, &hearts);
                },
                _ => {},
            }
        }
        proof {
            assert(orders@ =~= Self::response(self.name, self.mirror@, *event, seconds_left));
        }
        Reaction { orders, round_began }
    }

    /// The player's order to trade `card` at `price`.
    pub fn send_order(&self, price: usize, direction: Direction, card: &Card) -> (order: Order)
        ensures
            order == (Order { player_name: self.name, price, direction, card: *card }),
    {
        Order { player_name: self.name, price, direction, card: *card }
    }

    /// The price below which the pick-off policy lifts an ask.
    pub fn get_max_price_from_seconds(&self, seconds_left: u64) -> (price: usize)
        ensures
            price == max_price(seconds_left),
    {
        if seconds_left < 20 {
            0
        } else if seconds_left < 40 {
            1
        } else if seconds_left < 60 {
            2
        } else if seconds_left < 120 {
            3
        } else {
            4
        }
    }

    /// The pick-off policy for one suit.
    pub fn pick_off(&self, seconds_left: u64, inventory: usize, book: Book, card: Card) -> (orders:
        Vec<Order>)
        ensures
            orders@ == picks_off(self.name, seconds_left, inventory, book, card),
            orders@.len() <= 2,
    {
        let mut orders: Vec<Order> = Vec::new();
        let free = !book.ask.is_owned_by(self.name);
        if inventory <= 2 && book.ask.price < self.get_max_price_from_seconds(seconds_left)
            && free {
            orders.push(self.send_order(book.ask.price, Direction::Buy, &card));
        }
        if inventory > 0 && book.ask.price > 5 && free {
            orders.push(self.send_order(book.ask.price - 1, Direction::Sell, &card));
        }
        proof {
            assert(orders@ =~= picks_off(self.name, seconds_left, inventory, book, card));
        }
        orders
    }
}

} // verus!
