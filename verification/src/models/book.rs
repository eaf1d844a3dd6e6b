//! The order books: one best bid and one best ask for each suit.

use vstd::prelude::*;

use crate::models::event::{Trade, Update};
use crate::models::Card;
use crate::player::PlayerName;

verus! {

/// The price of a bid side on which nobody quotes: any price above it
/// improves the side.
pub const NO_BID_PRICE: usize = 0;

/// The price of an ask side on which nobody quotes: any price below it
/// improves the side.
pub const NO_ASK_PRICE: usize = 99;

/// A price and the player who quotes it. Without an owner the quote is
/// nobody's: the side of the book is empty.
#[derive(Debug, Clone, Copy, PartialEq, Eq)]
pub struct Quote {
    pub price: usize,
    pub player_name: Option<PlayerName>,
}

impl Quote {
    /// The bid of an empty side.
    pub open spec fn no_bid() -> Quote {
        Quote { price: NO_BID_PRICE, player_name: None }
    }

    /// The ask of an empty side.
    pub open spec fn no_ask() -> Quote {
        Quote { price: NO_ASK_PRICE, player_name: None }
    }

    /// Whether nobody stands behind the quote.
    pub open spec fn vacant(self) -> bool {
        self.player_name is None
    }

    /// Whether `name` stands behind the quote.
    pub open spec fn owned_by(self, name: PlayerName) -> bool {
        self.player_name == Some(name)
    }

    /// Whether `name` stands behind the quote.
    pub fn is_owned_by(&self, name: PlayerName) -> (owned: bool)
        ensures
            owned == self.owned_by(name),
    {
        match self.player_name {
            Some(owner) => owner == name,
            None => false,
        }
    }
}

/// The book of one suit: the best bid, the best ask, and the price of the
/// last trade in the suit, if there was one. It has no depth.
#[derive(Debug, Clone, Copy, PartialEq, Eq)]
pub struct Book {
    pub bid: Quote,
    pub ask: Quote,
    pub last_trade: Option<usize>,
}

impl Book {
    /// A book on which nobody quotes and nothing was traded.
    pub open spec fn fresh() -> Book {
        Book { bid: Quote::no_bid(), ask: Quote::no_ask(), last_trade: None }
    }

    /// This book with both sides emptied. The last trade stays.
    pub open spec fn cleared(self) -> Book {
        Book { bid: Quote::no_bid(), ask: Quote::no_ask(), last_trade: self.last_trade }
    }

    /// Whether both sides are empty.
    pub open spec fn is_clear(self) -> bool {
        self.bid == Quote::no_bid() && self.ask == Quote::no_ask()
    }

    /// Whether each side that nobody owns is the empty side.
    pub open spec fn sound(self) -> bool {
        &&& self.bid.vacant() ==> self.bid == Quote::no_bid()
        &&& self.ask.vacant() ==> self.ask == Quote::no_ask()
    }

    /// Whether the book can rest: the ask is above the bid, or a side is
    /// empty.
    pub open spec fn at_rest(self) -> bool {
        ||| self.ask.price > self.bid.price
        ||| self.bid == Quote::no_bid()
        ||| self.ask == Quote::no_ask()
    }

    /// Whether the book is sound and can rest.
    pub fn is_at_rest(&self) -> (ok: bool)
        ensures
            ok == (self.sound() && self.at_rest()),
    {
        let no_bid = self.bid.player_name.is_none();
        let no_ask = self.ask.player_name.is_none();
        if no_bid && self.bid.price != NO_BID_PRICE {
            return false;
        }
        if no_ask && self.ask.price != NO_ASK_PRICE {
            return false;
        }
        no_bid || no_ask || self.ask.price > self.bid.price
    }

    /// A book on which nobody quotes and nothing was traded.
    pub fn new() -> (book: Self)
        ensures
            book == Book::fresh(),
    {
        Self {
            bid: Quote { price: NO_BID_PRICE, player_name: None },
            ask: Quote { price: NO_ASK_PRICE, player_name: None },
            last_trade: None,
        }
    }

    /// Empties both sides. The last trade stays.
    pub fn reset_quotes(&mut self)
        ensures
            *final(self) == old(self).cleared(),
    {
        self.bid = Quote { price: NO_BID_PRICE, player_name: None };
        self.ask = Quote { price: NO_ASK_PRICE, player_name: None };
    }

    /// Remembers `price` as the price of the last trade.
    pub fn update_last_trade(&mut self, price: usize)
        ensures
            *final(self) == (Book { last_trade: Some(price), ..*old(self) }),
    {
        self.last_trade = Some(price);
    }
}

/// The four books of a table.
#[derive(Debug, Clone, Copy, PartialEq, Eq)]
pub struct Books {
    pub spades: Book,
    pub clubs: Book,
    pub diamonds: Book,
    pub hearts: Book,
}

impl Books {
    /// The book of `card`.
    pub open spec fn book(self, card: Card) -> Book {
        match card {
            Card::Spade => self.spades,
            Card::Club => self.clubs,
            Card::Diamond => self.diamonds,
            Card::Heart => self.hearts,
        }
    }

    /// These books with `book` in the place of the book of `card`.
    pub open spec fn with(self, card: Card, book: Book) -> Books {
        match card {
            Card::Spade => Books { spades: book, ..self },
            Card::Club => Books { clubs: book, ..self },
            Card::Diamond => Books { diamonds: book, ..self },
            Card::Heart => Books { hearts: book, ..self },
        }
    }

    /// Four books on which nobody quotes and nothing was traded.
    pub open spec fn fresh() -> Books {
        Books {
            spades: Book::fresh(),
            clubs: Book::fresh(),
            diamonds: Book::fresh(),
            hearts: Book::fresh(),
        }
    }

    /// These books with every side emptied. The last trades stay.
    pub open spec fn cleared(self) -> Books {
        Books {
            spades: self.spades.cleared(),
            clubs: self.clubs.cleared(),
            diamonds: self.diamonds.cleared(),
            hearts: self.hearts.cleared(),
        }
    }

    /// Whether no quote rests on any of the four books.
    pub open spec fn all_clear(self) -> bool {
        forall|card: Card| (#[trigger] self.book(card)).is_clear()
    }

    /// Whether each of the four books is sound and can rest.
    pub open spec fn at_rest(self) -> bool {
        forall|card: Card| (#[trigger] self.book(card)).sound() && self.book(card).at_rest()
    }

    /// What is told of these books, with the trade that led to them.
    pub open spec fn report(self, trade: Option<Trade>) -> Update {
        Update {
            spades: self.spades,
            clubs: self.clubs,
            diamonds: self.diamonds,
            hearts: self.hearts,
            trade,
        }
    }

    /// Four books without a quote or a trade.
    pub fn new() -> (books: Self)
        ensures
            books == Books::fresh(),
    {
        Self { spades: Book::new(), clubs: Book::new(), diamonds: Book::new(), hearts: Book::new() }
    }

    /// The book of `card`.
    pub fn get(&self, card: Card) -> (book: Book)
        ensures
            book == self.book(card),
    {
        match card {
            Card::Spade => self.spades,
            Card::Club => self.clubs,
            Card::Diamond => self.diamonds,
            Card::Heart => self.hearts,
        }
    }

    /// Puts `book` in the place of the book of `card`.
    pub fn set(&mut self, card: Card, book: Book)
        ensures
            *final(self) == old(self).with(card, book),
    {
        match card {
            Card::Spade => { self.spades = book; },
            Card::Club => { self.clubs = book; },
            Card::Diamond => { self.diamonds = book; },
            Card::Heart => { self.hearts = book; },
        }
    }

    /// Empties every side of every book.
    pub fn reset_quotes(&mut self)
        ensures
            *final(self) == old(self).cleared(),
    {
        self.spades.reset_quotes();
        self.clubs.reset_quotes();
        self.diamonds.reset_quotes();
        self.hearts.reset_quotes();
    }

    /// The update that tells these books and `trade`.
    pub fn snapshot(&self, trade: Option<Trade>) -> (update: Update)
        ensures
            update == self.report(trade),
    {
        Update {
            spades: self.spades,
            clubs: self.clubs,
            diamonds: self.diamonds,
            hearts: self.hearts,
            trade,
        }
    }
}

} // verus!
