//! The polling player: it looks at the table at its own pace and quotes by
//! the policy of its name.

use rand::rngs::StdRng;
use vstd::prelude::*;

use crate::models::book::{Book, Books};
use crate::models::event::Event;
use crate::models::inventory::Inventory;
use crate::models::order::{Direction, Order};
use crate::models::Card;
use crate::player::{extend_orders, Knowledge, Mirror, PlayerName, Tick, IDLE_MILLIS};
use crate::random::{draw_between, flip};

verus! {

/// Whether an order of `name` at `price` is worth sending against `book`:
/// it must better the quote on its side, and that quote must not be the
/// player's own.
pub open spec fn betters(name: PlayerName, price: usize, direction: Direction, book: Book) -> bool {
    match direction {
        Direction::Buy => book.bid.price < price && !book.bid.owned_by(name),
        Direction::Sell => book.ask.price > price && !book.ask.owned_by(name),
    }
}

/// The orders that go out when `name` wants to trade `card` at `price`: the
/// one order where it is worth sending, none where it is not.
pub open spec fn sent(
    name: PlayerName,
    price: usize,
    direction: Direction,
    card: Card,
    book: Book,
) -> Seq<Order> {
    if betters(name, price, direction, book) {
        seq![Order { player_name: name, price, direction, card }]
    } else {
        Seq::empty()
    }
}

/// The praying mantis sells while a minute or more is left: what it holds,
/// one below an ask of seven or more.
pub open spec fn mantis_sells(
    name: PlayerName,
    seconds_left: u64,
    inventory: usize,
    book: Book,
    card: Card,
) -> Seq<Order> {
    if seconds_left >= 60 && inventory > 0 && book.ask.price >= 7 {
        sent(name, (book.ask.price - 1) as usize, Direction::Sell, card, book)
    } else {
        Seq::empty()
    }
}

/// The praying mantis strikes in the last minute: it lifts an ask of nine
/// or less.
pub open spec fn mantis_snipes(
    name: PlayerName,
    seconds_left: u64,
    book: Book,
    card: Card,
) -> Seq<Order> {
    if seconds_left <= 60 && book.ask.price <= 9 {
        sent(name, book.ask.price, Direction::Buy, card, book)
    } else {
        Seq::empty()
    }
}

/// The most that the hoarder pays for a card: less as the round runs out.
pub open spec fn hoard_limit(seconds_left: u64) -> usize {
    if seconds_left >= 120 {
        7
    } else if seconds_left > 60 {
        6
    } else {
        4
    }
}

/// The hoarder buys until it holds six of a suit: it lifts an ask within
/// its limit, and else bids one above a bid below its limit.
pub open spec fn hoards(
    name: PlayerName,
    seconds_left: u64,
    inventory: usize,
    book: Book,
    card: Card,
) -> Seq<Order> {
    let limit = hoard_limit(seconds_left);
    if inventory >= 6 {
        Seq::empty()
    } else if book.ask.price <= limit {
        sent(name, book.ask.price, Direction::Buy, card, book)
    } else if book.bid.price < limit {
        sent(name, (book.bid.price + 1) as usize, Direction::Buy, card, book)
    } else {
        Seq::empty()
    }
}

/// The least bid that the seller hits: less as the round runs out.
pub open spec fn seller_floor(seconds_left: u64) -> usize {
    if seconds_left >= 180 {
        6
    } else if 120 < seconds_left < 180 {
        5
    } else if 60 < seconds_left < 120 {
        4
    } else {
        3
    }
}

/// The price at which the seller offers: less as the round runs out.
pub open spec fn seller_offer(seconds_left: u64) -> usize {
    if seconds_left >= 180 {
        8
    } else if 120 < seconds_left < 180 {
        6
    } else if 60 < seconds_left < 120 {
        6
    } else {
        4
    }
}

/// The seller sells what it holds: it hits a bid at or above its floor, and
/// offers at its price.
pub open spec fn sells(
    name: PlayerName,
    seconds_left: u64,
    inventory: usize,
    book: Book,
    card: Card,
) -> Seq<Order> {
    if inventory > 0 {
        (if book.bid.price >= seller_floor(seconds_left) {
            sent(name, book.bid.price, Direction::Sell, card, book)
        } else {
            Seq::empty()
        }) + sent(name, seller_offer(seconds_left), Direction::Sell, card, book)
    } else {
        Seq::empty()
    }
}

/// Whether the prices around the last trade of `book` are within the
/// machine's range.
pub open spec fn spread_in_range(book: Book) -> bool {
    book.last_trade matches Some(last) ==> last + 2 <= usize::MAX
}

/// The ask of the spread: above the last trade, or inside an ask above
/// seven where nothing has traded, and closer where the player holds more
/// of the suit than of its average suit.
pub open spec fn spread_asks(
    name: PlayerName,
    average_inventory: usize,
    inventory: usize,
    book: Book,
    card: Card,
) -> Seq<Order> {
    let eager = inventory > average_inventory;
    if inventory == 0 {
        Seq::empty()
    } else {
        match book.last_trade {
            Some(last) => sent(
                name,
                (last + if eager {
                    1int
                } else {
                    2int
                }) as usize,
                Direction::Sell,
                card,
                book,
            ),
            None => if book.ask.price > 7 {
                sent(
                    name,
                    (book.ask.price - if eager {
                        2int
                    } else {
                        1int
                    }) as usize,
                    Direction::Sell,
                    card,
                    book,
                )
            } else {
                Seq::empty()
            },
        }
    }
}

/// The bid of the spread, while more than twenty seconds are left: below
/// the last trade, or above a bid below seven where nothing has traded, and
/// closer where the player holds no more of the suit than of its average
/// suit.
pub open spec fn spread_bids(
    name: PlayerName,
    seconds_left: u64,
    average_inventory: usize,
    inventory: usize,
    book: Book,
    card: Card,
) -> Seq<Order> {
    let sated = inventory > average_inventory;
    if seconds_left <= 20 {
        Seq::empty()
    } else {
        match book.last_trade {
            Some(last) => if last > 2 {
                sent(
                    name,
                    (last - if sated {
                        2int
                    } else {
                        1int
                    }) as usize,
                    Direction::Buy,
                    card,
                    book,
                )
            } else {
                sent(name, 1, Direction::Buy, card, book)
            },
            None => if book.bid.price < 7 {
                sent(
                    name,
                    (book.bid.price + if sated {
                        1int
                    } else {
                        2int
                    }) as usize,
                    Direction::Buy,
                    card,
                    book,
                )
            } else {
                Seq::empty()
            },
        }
    }
}

/// The suit that the noisy player picks with `pick`, and what counts as its
/// holding of it: one to four pick spades, clubs, diamonds and hearts, and
/// any other number picks spades as if none were held.
pub open spec fn noisy_pick(pick: u64, inventory: Inventory) -> (Card, usize) {
    if pick == 1 {
        (Card::Spade, inventory.spades)
    } else if pick == 2 {
        (Card::Club, inventory.clubs)
    } else if pick == 3 {
        (Card::Diamond, inventory.diamonds)
    } else if pick == 4 {
        (Card::Heart, inventory.hearts)
    } else {
        (Card::Spade, 0)
    }
}

/// The noisy player trades the suit it picked at the price it drew: it
/// buys while it holds fewer than four, and sells while it holds any.
pub open spec fn noisy_orders(
    name: PlayerName,
    pick: u64,
    is_buy: bool,
    price: usize,
    inventory: Inventory,
    books: Books,
) -> Seq<Order> {
    let (card, held) = noisy_pick(pick, inventory);
    if is_buy && held < 4 {
        sent(name, price, Direction::Buy, card, books.book(card))
    } else if !is_buy && held > 0 {
        sent(name, price, Direction::Sell, card, books.book(card))
    } else {
        Seq::empty()
    }
}

/// Whether `orders` is what the noisy player sends on some draw: a suit, a
/// side, and a price from one to fourteen.
pub open spec fn noisy_outcome(
    name: PlayerName,
    inventory: Inventory,
    books: Books,
    orders: Seq<Order>,
) -> bool {
    exists|pick: u64, is_buy: bool, price: usize|
        1 <= pick <= 4 && 1 <= price <= 14 && orders == #[trigger] noisy_orders(
            name,
            pick,
            is_buy,
            price,
            inventory,
            books,
        )
}

/// The price of the last trade on `book`, or zero where nothing has traded.
pub open spec fn last_price(book: Book) -> usize {
    match book.last_trade {
        Some(price) => price,
        None => 0,
    }
}

/// The suit that traded last at the highest price: of several, the first in
/// the order spades, clubs, diamonds, hearts.
pub open spec fn dearest(books: Books) -> Card {
    let spades = last_price(books.spades);
    let clubs = last_price(books.clubs);
    let diamonds = last_price(books.diamonds);
    let hearts = last_price(books.hearts);
    if spades >= clubs && spades >= diamonds && spades >= hearts {
        Card::Spade
    } else if clubs >= diamonds && clubs >= hearts {
        Card::Club
    } else if diamonds >= hearts {
        Card::Diamond
    } else {
        Card::Heart
    }
}

/// A player of the polling kind.
pub struct GenericPlayer {
    pub name: PlayerName,
    pub verbose: bool,
    pub mirror: Mirror,
    /// The least milliseconds between two looks at the table.
    pub lower_frequency: u64,
    /// The milliseconds that the time between two looks stays below.
    pub higher_frequency: u64,
}

impl GenericPlayer {
    /// What the player holds of `card`, as far as it knows.
    pub open spec fn holds(&self, card: Card) -> usize {
        self.mirror@.inventory.held(card) as usize
    }

    /// The player's holding of its average suit, rounded down.
    pub open spec fn average(&self) -> usize {
        (self.mirror@.inventory.size() / 4) as usize
    }

    /// What the policy of `policy` does with one suit.
    pub open spec fn quotes(&self, policy: PlayerName, seconds_left: u64, card: Card) -> Seq<
        Order,
    > {
        let book = self.mirror@.books.book(card);
        match policy {
            PlayerName::PrayingMantis => mantis_sells(
                self.name,
                seconds_left,
                self.holds(card),
                book,
                card,
            ),
            PlayerName::TheHoarder => hoards(self.name, seconds_left, self.holds(card), book, card),
            PlayerName::Seller => sells(self.name, seconds_left, self.holds(card), book, card),
            PlayerName::Spread => spread_asks(
                self.name,
                self.average(),
                self.holds(card),
                book,
                card,
            ) + spread_bids(
                self.name,
                seconds_left,
                self.average(),
                self.holds(card),
                book,
                card,
            ),
            _ => Seq::empty(),
        }
    }

    /// What the player sends at one look at the table, where its policy
    /// draws nothing: the policy's quotes for spades, clubs, diamonds and
    /// hearts, and behind them, for the praying mantis, its strike at the
    /// dearest suit. A name without a policy sends nothing.
    pub open spec fn plan(&self, seconds_left: u64) -> Seq<Order> {
        let four = self.quotes(self.name, seconds_left, Card::Spade) + self.quotes(
            self.name,
            seconds_left,
            Card::Club,
        ) + self.quotes(self.name, seconds_left, Card::Diamond) + self.quotes(
            self.name,
            seconds_left,
            Card::Heart,
        );
        if self.name == PlayerName::PrayingMantis {
            let dear = dearest(self.mirror@.books);
            four + mantis_snipes(self.name, seconds_left, self.mirror@.books.book(dear), dear)
        } else {
            four
        }
    }

    /// Whether the prices that the player's policy may name are within the
    /// machine's range, and its cards can be counted.
    pub open spec fn in_range(&self) -> bool {
        self.name == PlayerName::Spread ==> {
            &&& self.mirror@.inventory.size() <= usize::MAX
            &&& forall|card: Card| spread_in_range(#[trigger] self.mirror@.books.book(card))
        }
    }

    /// Whether the prices that the player's policy may name are within the
    /// machine's range, and its cards can be counted.
    pub fn is_in_range(&self) -> (ok: bool)
        ensures
            ok == self.in_range(),
    {
        match self.name {
            PlayerName::Spread => {
                let held = self.mirror.inventory;
                let counted = match held.spades.checked_add(held.clubs) {
                    Some(black) => match held.diamonds.checked_add(held.hearts) {
                        Some(red) => black.checked_add(red).is_some(),
                        None => false,
                    },
                    None => false,
                };
                let books = self.mirror.books;
                let priced = around_in_range(&books.spades) && around_in_range(&books.clubs)
                    && around_in_range(&books.diamonds) && around_in_range(&books.hearts);
                proof {
                    if priced {
                        assert forall|card: Card|
                            spread_in_range(#[trigger] self.mirror@.books.book(card)) by {
                            assert(card == Card::Spade || card == Card::Club || card
                                == Card::Diamond || card == Card::Heart);
                        }
                    } else {
                        assert(!spread_in_range(self.mirror@.books.book(Card::Spade))
                            || !spread_in_range(self.mirror@.books.book(Card::Club))
                            || !spread_in_range(self.mirror@.books.book(Card::Diamond))
                            || !spread_in_range(self.mirror@.books.book(Card::Heart)));
                    }
                }
                counted && priced
            },
            _ => true,
        }
    }

    /// A player that has heard nothing yet.
    pub fn new(
        player_name: PlayerName,
        verbose: bool,
        lower_frequency: u64,
        higher_frequency: u64,
    ) -> (player: Self)
        ensures
            player.name == player_name,
            player.verbose == verbose,
            player.lower_frequency == lower_frequency,
            player.higher_frequency == higher_frequency,
            player.mirror@ == Knowledge::blank(),
    {
        Self {
            name: player_name,
            verbose,
            mirror: Mirror::new(),
            lower_frequency,
            higher_frequency,
        }
    }

    /// One look at the table with `seconds_left` of the round to go. While
    /// no round is on the player sends nothing and rests for a second.
    /// While one is on it sends what its policy says and rests for a time
    /// drawn from its range.
    pub fn start(&self, seconds_left: u64, rng: &mut StdRng) -> (tick: Tick)
        requires
            self.mirror.trading ==> self.lower_frequency < self.higher_frequency,
            self.in_range(),
        ensures
            !self.mirror.trading ==> tick.orders@.len() == 0 && tick.sleep_millis == IDLE_MILLIS,
            self.mirror.trading ==> self.lower_frequency <= tick.sleep_millis
                < self.higher_frequency,
            self.mirror.trading && self.name != PlayerName::Noisy ==> tick.orders@ == self.plan(
                seconds_left,
            ),
            self.mirror.trading && self.name == PlayerName::Noisy ==> noisy_outcome(
                self.name,
                self.mirror@.inventory,
                self.mirror@.books,
                tick.orders@,
            ),
    {
        if !self.mirror.trading {
            return Tick { orders: Vec::new(), sleep_millis: IDLE_MILLIS };
        }
        let orders = match self.name {
            PlayerName::Noisy => self.noisy_trader(
                self.mirror.inventory,
                self.mirror.books.spades,
                self.mirror.books.clubs,
                self.mirror.books.diamonds,
                self.mirror.books.hearts,
                rng,
            ),
            _ => self.decide(seconds_left),
        };
        let sleep_millis = draw_between(rng, self.lower_frequency, self.higher_frequency - 1);
        Tick { orders, sleep_millis }
    }

    /// What the player sends at one look at the table, where its policy
    /// draws nothing.
    pub fn decide(&self, seconds_left: u64) -> (orders: Vec<Order>)
        requires
            self.in_range(),
        ensures
            orders@ == self.plan(seconds_left),
    {
        let inventory = self.mirror.inventory;
        let books = self.mirror.books;
        let mut orders: Vec<Order> = Vec::new();
        match self.name {
            PlayerName::PrayingMantis => {
                let spades = self.praying_mantis_sell(
                    seconds_left,
                    inventory.spades,
                    books.spades,
                    Card::Spade,
                );
                let clubs = self.praying_mantis_sell(
                    seconds_left,
                    inventory.clubs,
                    books.clubs,
                    Card::Club,
                );
                let diamonds = self.praying_mantis_sell(
                    seconds_left,
                    inventory.diamonds,
                    books.diamonds,
                    Card::Diamond,
                );
                let hearts = self.praying_mantis_sell(
                    seconds_left,
                    inventory.hearts,
                    books.hearts,
                    Card::Heart,
                );
                let dear = most_expensive(&books);
                let strike = self.praying_mantis_snipe(
                    seconds_left,
                    inventory.get(&dear),
                    books.get(dear),
                    dear,
                );
                extend_orders(&mut orders, &spades);
                extend_orders(&mut orders, &clubs);
                extend_orders(&mut orders, &diamonds);
                extend_orders(&mut orders, &hearts);
                extend_orders(&mut orders, &strike);
            },
            PlayerName::TheHoarder => {
                let spades = self.hoard(seconds_left, inventory.spades, books.spades, Card::Spade);
                let clubs = self.hoard(seconds_left, inventory.clubs, books.clubs, Card::Club);
                let diamonds = self.hoard(
                    seconds_left,
                    inventory.diamonds,
                    books.diamonds,
                    Card::Diamond,
                );
                let hearts = self.hoard(seconds_left, inventory.hearts, books.hearts, Card::Heart);
                extend_orders(&mut orders, &spades);
                extend_orders(&mut orders, &clubs);
                extend_orders(&mut orders, &diamonds);
                extend_orders(&mut orders, &hearts);
            },
            PlayerName::Seller => {
                let spades = self.sell_inventory(
                    seconds_left,
                    inventory.spades,
                    books.spades,
                    Card::Spade,
                );
                let clubs = self.sell_inventory(
                    seconds_left,
                    inventory.clubs,
                    books.clubs,
                    Card::Club,
                );
                let diamonds = self.sell_inventory(
                    seconds_left,
                    inventory.diamonds,
                    books.diamonds,
                    Card::Diamond,
                );
                let hearts = self.sell_inventory(
                    seconds_left,
                    inventory.hearts,
                    books.hearts,
                    Card::Heart,
                );
                extend_orders(&mut orders, &spades);
                extend_orders(&mut orders, &clubs);
                extend_orders(&mut orders, &diamonds);
                extend_orders(&mut orders, &hearts);
            },
            PlayerName::Spread => {
                proof {
                    assert(spread_in_range(self.mirror@.books.book(Card::Spade)));
                    assert(spread_in_range(self.mirror@.books.book(Card::Club)));
                    assert(spread_in_range(self.mirror@.books.book(Card::Diamond)));
                    assert(spread_in_range(self.mirror@.books.book(Card::Heart)));
                }
                let average_inventory = (inventory.spades + inventory.clubs + inventory.diamonds
                    + inventory.hearts) / 4;
                let spades = self.provide_spread(
                    seconds_left,
                    average_inventory,
                    inventory.spades,
                    books.spades,
                    Card::Spade,
                );
                let clubs = self.provide_spread(
                    seconds_left,
                    average_inventory,
                    inventory.clubs,
                    books.clubs,
                    Card::Club,
                );
                let diamonds = self.provide_spread(
                    seconds_left,
                    average_inventory,
                    inventory.diamonds,
                    books.diamonds,
                    Card::Diamond,
                );
                let hearts = self.provide_spread(
                    seconds_left,
                    average_inventory,
                    inventory.hearts,
                    books.hearts,
                    Card::Heart,
                );
                extend_orders(&mut orders, &spades);
                extend_orders(&mut orders, &clubs);
                extend_orders(&mut orders, &diamonds);
                extend_orders(&mut orders, &hearts);
            },
            _ => {},
        }
        proof {
            assert(orders@ =~= self.plan(seconds_left));
        }
        orders
    }

    /// The order to send when the player wants to trade `card` at `price`,
    /// if it is worth sending: it must better the quote on its side of
    /// `book`, and that quote must not be the player's own.
    pub fn send_order(&self, price: usize, direction: Direction, card: &Card, book: &Book) -> (order:
        Option<Order>)
        ensures
            order == if betters(self.name, price, direction, *book) {
                Some(Order { player_name: self.name, price, direction, card: *card })
            } else {
                None
            },
    {
        let worth = match direction {
            Direction::Buy => book.bid.price < price && !book.bid.is_owned_by(self.name),
            Direction::Sell => book.ask.price > price && !book.ask.is_owned_by(self.name),
        };
        if worth {
            Some(Order { player_name: self.name, price, direction, card: *card })
        } else {
            None
        }
    }

    /// The orders that go out when the player wants to trade `card` at
    /// `price`.
    fn send(&self, price: usize, direction: Direction, card: Card, book: Book) -> (orders: Vec<
        Order,
    >)
        ensures
            orders@ == sent(self.name, price, direction, card, book),
    {
        let mut orders: Vec<Order> = Vec::new();
        if let Some(order) = self.send_order(price, direction, &card, &book) {
            orders.push(order);
        }
        proof {
            assert(orders@ =~= sent(self.name, price, direction, card, book));
        }
        orders
    }

    /// The noisy policy: draws a suit, a side and a price from one to
    /// fourteen, and trades by `noisy_choice`.
    pub fn noisy_trader(
        &self,
        inventory: Inventory,
        spades_book: Book,
        clubs_book: Book,
        diamonds_book: Book,
        hearts_book: Book,
        rng: &mut StdRng,
    ) -> (orders: Vec<Order>)
        ensures
            noisy_outcome(
                self.name,
                inventory,
                Books {
                    spades: spades_book,
                    clubs: clubs_book,
                    diamonds: diamonds_book,
                    hearts: hearts_book,
                },
                orders@,
            ),
    {
        let books = Books {
            spades: spades_book,
            clubs: clubs_book,
            diamonds: diamonds_book,
            hearts: hearts_book,
        };
        let pick = draw_between(rng, 1, 4);
        let is_buy = flip(rng);
        let price = draw_between(rng, 1, 14) as usize;
        self.noisy_choice(pick, is_buy, price, inventory, &books)
    }

    /// What the noisy policy sends once it has drawn the suit with `pick`,
    /// the side with `is_buy`, and `price`.
    pub fn noisy_choice(
        &self,
        pick: u64,
        is_buy: bool,
        price: usize,
        inventory: Inventory,
        books: &Books,
    ) -> (orders: Vec<Order>)
        ensures
            orders@ == noisy_orders(self.name, pick, is_buy, price, inventory, *books),
    {
        let (card, held) = if pick == 1 {
            (Card::Spade, inventory.spades)
        } else if pick == 2 {
            (Card::Club, inventory.clubs)
        } else if pick == 3 {
            (Card::Diamond, inventory.diamonds)
        } else if pick == 4 {
            (Card::Heart, inventory.hearts)
        } else {
            (Card::Spade, 0)
        };
        if is_buy && held < 4 {
            self.send(price, Direction::Buy, card, books.get(card))
        } else if !is_buy && held > 0 {
            self.send(price, Direction::Sell, card, books.get(card))
        } else {
            Vec::new()
        }
    }

    /// The sale of the praying mantis in one suit.
    pub fn praying_mantis_sell(&self, seconds_left: u64, inventory: usize, book: Book, card: Card) -> (orders:
        Vec<Order>)
        ensures
            orders@ == mantis_sells(self.name, seconds_left, inventory, book, card),
    {
        if seconds_left >= 60 && inventory > 0 && book.ask.price >= 7 {
            self.send(book.ask.price - 1, Direction::Sell, card, book)
        } else {
            Vec::new()
        }
    }

    /// The strike of the praying mantis. What it holds of the suit does not
    /// count.
    pub fn praying_mantis_snipe(
        &self,
        seconds_left: u64,
        inventory: usize,
        book: Book,
        card: Card,
    ) -> (orders: Vec<Order>)
        ensures
            orders@ == mantis_snipes(self.name, seconds_left, book, card),
    {
        if seconds_left <= 60 && book.ask.price <= 9 {
            self.send(book.ask.price, Direction::Buy, card, book)
        } else {
            Vec::new()
        }
    }

    /// The hoarder's purchase in one suit.
    pub fn hoard(&self, seconds_left: u64, inventory: usize, book: Book, card: Card) -> (orders:
        Vec<Order>)
        ensures
            orders@ == hoards(self.name, seconds_left, inventory, book, card),
    {
        let limit: usize = if seconds_left >= 120 {
            7
        } else if seconds_left > 60 {
            6
        } else {
            4
        };
        if inventory >= 6 {
            Vec::new()
        } else if book.ask.price <= limit {
            self.send(book.ask.price, Direction::Buy, card, book)
        } else if book.bid.price < limit {
            self.send(book.bid.price + 1, Direction::Buy, card, book)
        } else {
            Vec::new()
        }
    }

    /// The seller's sales in one suit.
    pub fn sell_inventory(&self, seconds_left: u64, inventory: usize, book: Book, card: Card) -> (orders:
        Vec<Order>)
        ensures
            orders@ == sells(self.name, seconds_left, inventory, book, card),
    {
        let mut orders: Vec<Order> = Vec::new();
        if inventory > 0 {
            let (floor, offer): (usize, usize) = if seconds_left >= 180 {
                (6, 8)
            } else if seconds_left > 120 && seconds_left < 180 {
                (5, 6)
            } else if seconds_left > 60 && seconds_left < 120 {
                (4, 6)
            } else {
                (3, 4)
            };
            if book.bid.price >= floor {
                let hit = self.send(book.bid.price, Direction::Sell, card, book);
                extend_orders(&mut orders, &hit);
            }
            let offered = self.send(offer, Direction::Sell, card, book);
            extend_orders(&mut orders, &offered);
        }
        proof {
            assert(orders@ =~= sells(self.name, seconds_left, inventory, book, card));
        }
        orders
    }

    /// The two quotes of the spread in one suit: its ask, then its bid.
    pub fn provide_spread(
        &self,
        seconds_left: u64,
        average_inventory: usize,
        inventory: usize,
        book: Book,
        card: Card,
    ) -> (orders: Vec<Order>)
        requires
            spread_in_range(book),
        ensures
            orders@ == spread_asks(self.name, average_inventory, inventory, book, card)
                + spread_bids(self.name, seconds_left, average_inventory, inventory, book, card),
    {
        let mut orders: Vec<Order> = Vec::new();
        let more = inventory > average_inventory;
        if inventory > 0 {
            if let Some(last_trade) = book.last_trade {
                let asked = self.send(
                    if more {
                        last_trade + 1
                    } else {
                        last_trade + 2
                    },
                    Direction::Sell,
                    card,
                    book,
                );
                extend_orders(&mut orders, &asked);
            } else if book.ask.price > 7 {
                let asked = self.send(
                    if more {
                        book.ask.price - 2
                    } else {
                        book.ask.price - 1
                    },
                    Direction::Sell,
                    card,
                    book,
                );
                extend_orders(&mut orders, &asked);
            }
        }
        if seconds_left > 20 {
            if let Some(last_trade) = book.last_trade {
                let price = if last_trade > 2 {
                    if more {
                        last_trade - 2
                    } else {
                        last_trade - 1
                    }
                } else {
                    1
                };
                let bid = self.send(price, Direction::Buy, card, book);
                extend_orders(&mut orders, &bid);
            } else if book.bid.price < 7 {
                let bid = self.send(
                    if more {
                        book.bid.price + 1
                    } else {
                        book.bid.price + 2
                    },
                    Direction::Buy,
                    card,
                    book,
                );
                extend_orders(&mut orders, &bid);
            }
        }
        proof {
            assert(orders@ =~= spread_asks(self.name, average_inventory, inventory, book, card)
                + spread_bids(self.name, seconds_left, average_inventory, inventory, book, card));
        }
        orders
    }

    /// Takes in one event, and says whether a round began with it.
    pub fn listen_to_events(&mut self, event: &Event) -> (round_began: bool)
        requires
            Knowledge::hears(old(self).name, *event),
        ensures
            final(self).mirror@ == old(self).mirror@.after_event(old(self).name, *event),
            round_began == (*event is DealCards),
            final(self).name == old(self).name,
            final(self).verbose == old(self).verbose,
            final(self).lower_frequency == old(self).lower_frequency,
            final(self).higher_frequency == old(self).higher_frequency,
    {
        self.mirror.listen(self.name, event)
    }
}

/// The suit that traded last at the highest price.
pub fn most_expensive(books: &Books) -> (card: Card)
    ensures
        card == dearest(*books),
{
    let spades = price_of(&books.spades);
    let clubs = price_of(&books.clubs);
    let diamonds = price_of(&books.diamonds);
    let hearts = price_of(&books.hearts);
    if spades >= clubs && spades >= diamonds && spades >= hearts {
        Card::Spade
    } else if clubs >= diamonds && clubs >= hearts {
        Card::Club
    } else if diamonds >= hearts {
        Card::Diamond
    } else {
        Card::Heart
    }
}

/// Whether the prices around the last trade of `book` are within the
/// machine's range.
fn around_in_range(book: &Book) -> (ok: bool)
    ensures
        ok == spread_in_range(*book),
{
    match book.last_trade {
        Some(last) => last <= usize::MAX - 2,
        None => true,
    }
}

/// The price of the last trade on `book`, or zero where nothing has traded.
fn price_of(book: &Book) -> (price: usize)
    ensures
        price == last_price(*book),
{
    match book.last_trade {
        Some(price) => price,
        None => 0,
    }
}

} // verus!
