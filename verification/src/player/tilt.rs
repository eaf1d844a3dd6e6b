//! The tilting player: it guesses the goal suit from its hand, buys that
//! suit and sells the others.

use rand::rngs::StdRng;
use vstd::prelude::*;

use crate::models::book::Book;
use crate::models::event::Event;
use crate::models::inventory::Inventory;
use crate::models::order::{Direction, Order};
use crate::models::Card;
use crate::player::{extend_orders, Knowledge, Mirror, PlayerName, Tick, IDLE_MILLIS};
use crate::random::draw_between;

verus! {

/// The count that a suit must stay below to be the scarcest of a hand: the
/// most cards of one suit that a deck holds.
pub const SCARCE_BELOW: usize = 12;

/// The highest bid that the tilting player makes for its goal suit.
pub const TILT_BID_CAP: usize = 8;

/// The suit of which a hand holds the least, and that count: of suits that
/// hold as little, the first in the order spades, clubs, diamonds, hearts.
/// Only a count below twelve makes a suit scarce; without one it is spades.
pub open spec fn scarcest(hand: Inventory) -> (Card, usize) {
    let spades = if hand.spades < SCARCE_BELOW {
        (Card::Spade, hand.spades)
    } else {
        (Card::Spade, SCARCE_BELOW)
    };
    let clubs = if hand.clubs < spades.1 {
        (Card::Club, hand.clubs)
    } else {
        spades
    };
    let diamonds = if hand.diamonds < clubs.1 {
        (Card::Diamond, hand.diamonds)
    } else {
        clubs
    };
    if hand.hearts < diamonds.1 {
        (Card::Heart, hand.hearts)
    } else {
        diamonds
    }
}

/// The suit that the tilting player takes for the goal suit: the partner of
/// the suit of which its hand holds the least.
pub open spec fn believed_goal(hand: Inventory) -> Card {
    scarcest(hand).0.partner()
}

/// How the tilting player sells a suit that it does not take for the goal
/// suit, against an ask that is not its own: while more than thirty seconds
/// are left, what it holds at one below an ask above four; after that, at
/// one, whatever it holds.
pub open spec fn tilt_sells(
    name: PlayerName,
    seconds_left: u64,
    inventory: usize,
    book: Book,
    card: Card,
) -> Seq<Order> {
    let free = !book.ask.owned_by(name);
    if seconds_left > 30 {
        if book.ask.price > 4 && inventory > 0 && free {
            seq![
                Order {
                    player_name: name,
                    price: (book.ask.price - 1) as usize,
                    direction: Direction::Sell,
                    card,
                },
            ]
        } else {
            Seq::empty()
        }
    } else if free {
        seq![Order { player_name: name, price: 1, direction: Direction::Sell, card }]
    } else {
        Seq::empty()
    }
}

/// How the tilting player bids for the suit that it takes for the goal
/// suit: one above a bid below eight that is not its own.
pub open spec fn tilt_bids(name: PlayerName, book: Book, goal: Card) -> Seq<Order> {
    if book.bid.price < TILT_BID_CAP && !book.bid.owned_by(name) {
        seq![
            Order {
                player_name: name,
                price: (book.bid.price + 1) as usize,
                direction: Direction::Buy,
                card: goal,
            },
        ]
    } else {
        Seq::empty()
    }
}

/// A player of the polling kind that tilts its holding towards one suit.
pub struct TiltInventory {
    pub name: PlayerName,
    pub verbose: bool,
    pub mirror: Mirror,
    /// The suit that the player takes for the goal suit of the round.
    pub highest_card: Card,
    /// The least milliseconds between two looks at the table.
    pub lower_frequency: u64,
    /// The milliseconds that the time between two looks stays below.
    pub higher_frequency: u64,
}

impl TiltInventory {
    /// How the player sells `card`, unless it takes it for the goal suit.
    pub open spec fn unloads(&self, seconds_left: u64, card: Card) -> Seq<Order> {
        if card != self.highest_card {
            tilt_sells(
                self.name,
                seconds_left,
                self.mirror@.inventory.held(card) as usize,
                self.mirror@.books.book(card),
                card,
            )
        } else {
            Seq::empty()
        }
    }

    /// What the player sends at one look at the table: its sales of spades,
    /// clubs, diamonds and hearts, and behind them its bid for the suit
    /// that it takes for the goal suit.
    pub open spec fn plan(&self, seconds_left: u64) -> Seq<Order> {
        self.unloads(seconds_left, Card::Spade) + self.unloads(seconds_left, Card::Club)
            + self.unloads(seconds_left, Card::Diamond) + self.unloads(seconds_left, Card::Heart)
            + tilt_bids(self.name, self.mirror@.books.book(self.highest_card), self.highest_card)
    }

    /// A player that has heard nothing yet. Until its first deal it takes
    /// spades for the goal suit.
    pub fn new(
        player_name: PlayerName,
        verbose: bool,
        lower_frequency: u64,
        higher_frequency: u64,
    ) -> (player: Self)
        ensures
            player.name == player_name,
            player.verbose == verbose,
            player.highest_card == Card::Spade,
            player.lower_frequency == lower_frequency,
            player.higher_frequency == higher_frequency,
            player.mirror@ == Knowledge::blank(),
    {
        Self {
            name: player_name,
            verbose,
            mirror: Mirror::new(),
            highest_card: Card::Spade,
            lower_frequency,
            higher_frequency,
        }
    }

    /// One look at the table with `seconds_left` of the round to go. While
    /// no round is on the player sends nothing and rests for a second.
    /// While one is on it sends what its plan says and rests for a time
    /// drawn from its range.
    pub fn start(&self, seconds_left: u64, rng: &mut StdRng) -> (tick: Tick)
        requires
            self.mirror.trading ==> self.lower_frequency < self.higher_frequency,
        ensures
            !self.mirror.trading ==> tick.orders@.len() == 0 && tick.sleep_millis == IDLE_MILLIS,
            self.mirror.trading ==> self.lower_frequency <= tick.sleep_millis
                < self.higher_frequency,
            self.mirror.trading ==> tick.orders@ == self.plan(seconds_left),
    {
        if !self.mirror.trading {
            return Tick { orders: Vec::new(), sleep_millis: IDLE_MILLIS };
        }
        let orders = self.decide(seconds_left);
        let sleep_millis = draw_between(rng, self.lower_frequency, self.higher_frequency - 1);
        Tick { orders, sleep_millis }
    }

    /// What the player sends at one look at the table.
    pub fn decide(&self, seconds_left: u64) -> (orders: Vec<Order>)
        ensures
            orders@ == self.plan(seconds_left),
    {
        let goal = self.highest_card;
        let mut orders: Vec<Order> = Vec::new();
        let spades = self.unload(seconds_left, Card::Spade);
        let clubs = self.unload(seconds_left, Card::Club);
        let diamonds = self.unload(seconds_left, Card::Diamond);
        let hearts = self.unload(seconds_left, Card::Heart);
        extend_orders(&mut orders, &spades);
        extend_orders(&mut orders, &clubs);
        extend_orders(&mut orders, &diamonds);
        extend_orders(&mut orders, &hearts);
        let book = self.mirror.books.get(goal);
        if book.bid.price < TILT_BID_CAP && !book.bid.is_owned_by(self.name) {
            orders.push(self.send_order(book.bid.price + 1, Direction::Buy, &goal));
        }
        proof {
            assert(orders@ =~= self.plan(seconds_left));
        }
        orders
    }

    /// The player's sales of `card`.
    fn unload(&self, seconds_left: u64, card: Card) -> (orders: Vec<Order>)
        ensures
            orders@ == self.unloads(seconds_left, card),
    {
        let mut orders: Vec<Order> = Vec::new();
        if card != self.highest_card {
            let book = self.mirror.books.get(card);
            let inventory = self.mirror.inventory.get(&card);
            let free = !book.ask.is_owned_by(self.name);
            if seconds_left > 30 {
                if book.ask.price > 4 && inventory > 0 && free {
                    orders.push(self.send_order(book.ask.price - 1, Direction::Sell, &card));
                }
            } else if free {
                orders.push(self.send_order(1, Direction::Sell, &card));
            }
        }
        proof {
            assert(orders@ =~= self.unloads(seconds_left, card));
        }
        orders
    }

    /// The player's order to trade `card` at `price`.
    pub fn send_order(&self, price: usize, direction: Direction, card: &Card) -> (order: Order)
        ensures
            order == (Order { player_name: self.name, price, direction, card: *card }),
    {
        Order { player_name: self.name, price, direction, card: *card }
    }

    /// Takes in one event, and says whether a round began with it. At a
    /// deal the player looks at its hand and settles on the suit that it
    /// takes for the goal suit.
    pub fn listen_to_events(&mut self, event: &Event) -> (round_began: bool)
        requires
            Knowledge::hears(old(self).name, *event),
        ensures
            final(self).mirror@ == old(self).mirror@.after_event(old(self).name, *event),
            final(self).highest_card == if *event is DealCards {
                believed_goal(final(self).mirror@.inventory)
            } else {
                old(self).highest_card
            },
            round_began == (*event is DealCards),
            final(self).name == old(self).name,
            final(self).verbose == old(self).verbose,
            final(self).lower_frequency == old(self).lower_frequency,
            final(self).higher_frequency == old(self).higher_frequency,
    {
        let round_began = self.mirror.listen(self.name, event);
        if round_began {
            self.highest_card = guess_goal(&self.mirror.inventory);
        }
        round_began
    }
}

/// The suit that the tilting player takes for the goal suit on `hand`.
pub fn guess_goal(hand: &Inventory) -> (goal: Card)
    ensures
        goal == believed_goal(*hand),
{
    let mut least: (Card, usize) = (Card::Spade, SCARCE_BELOW);
    if hand.spades < least.1 {
        least = (Card::Spade, hand.spades);
    }
    if hand.clubs < least.1 {
        least = (Card::Club, hand.clubs);
    }
    if hand.diamonds < least.1 {
        least = (Card::Diamond, hand.diamonds);
    }
    if hand.hearts < least.1 {
        least = (Card::Heart, hand.hearts);
    }
    least.0.get_goal_suit()
}

} // verus!
