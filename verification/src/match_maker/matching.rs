//! The matching rule: how one order meets the book of its suit.

use vstd::prelude::*;

use crate::match_maker::ledger::{
    cards_total, lemma_cards_pair, lemma_cards_update, lemma_points_pair, lemma_points_update,
    points_total,
};
use crate::match_maker::{MatchMaker, Table};
use crate::models::book::{Book, Quote};
use crate::models::event::{Trade, Update};
use crate::models::order::{Direction, Order};
use crate::models::Card;
use crate::player::PlayerName;

verus! {

/// Why an order was turned away. An order that is turned away changes
/// nothing and is told to nobody.
#[derive(Debug, Clone, Copy, PartialEq, Eq, Structural)]
pub enum Rejection {
    /// The order names the price zero.
    ZeroPrice,
    /// The one who would hand over the card holds none of the suit.
    NoInventory,
    /// The one who would pay has fewer points than the price.
    InsufficientPoints,
}

impl Table {
    /// Whether `order` meets the quote that rests on the other side of its
    /// book: a buy at or above an ask that somebody owns, a sell at or below
    /// a bid that somebody owns.
    pub open spec fn crosses(self, order: Order) -> bool {
        let book = self.books.book(order.card);
        match order.direction {
            Direction::Buy => !book.ask.vacant() && order.price >= book.ask.price,
            Direction::Sell => !book.bid.vacant() && order.price <= book.bid.price,
        }
    }

    /// The trade of an order that crosses: at the price of the quote that
    /// rested, between the owner of that quote and the sender of the order.
    pub open spec fn crossing_trade(self, order: Order) -> Trade {
        let book = self.books.book(order.card);
        match order.direction {
            Direction::Buy => Trade {
                card: order.card,
                price: book.ask.price,
                buyer: order.player_name,
                seller: book.ask.player_name->Some_0,
            },
            Direction::Sell => Trade {
                card: order.card,
                price: book.bid.price,
                buyer: book.bid.player_name->Some_0,
                seller: order.player_name,
            },
        }
    }

    /// Why `trade` cannot be made, if it cannot: the seller must hold a card
    /// of the suit, and the buyer the price in points.
    pub open spec fn refusal(self, trade: Trade) -> Option<Rejection> {
        if self.inventories[self.seat(trade.seller)].held(trade.card) == 0 {
            Some(Rejection::NoInventory)
        } else if self.points[self.seat(trade.buyer)] < trade.price {
            Some(Rejection::InsufficientPoints)
        } else {
            None
        }
    }

    /// The table after `trade`: one card went from the seller to the buyer,
    /// the price from the buyer to the seller, every quote on every book is
    /// gone, and the book of the suit remembers the price.
    pub open spec fn after_trade(self, trade: Trade) -> Table {
        let buyer = self.seat(trade.buyer);
        let seller = self.seat(trade.seller);
        let given = self.inventories.update(
            seller,
            self.inventories[seller].changed(trade.card, -1),
        );
        let taken = given.update(buyer, given[buyer].changed(trade.card, 1));
        let paid = self.points.update(buyer, (self.points[buyer] - trade.price) as usize);
        let received = paid.update(seller, (paid[seller] + trade.price) as usize);
        Table {
            inventories: taken,
            points: received,
            books: self.books.cleared().with(
                trade.card,
                Book { last_trade: Some(trade.price), ..self.books.book(trade.card).cleared() },
            ),
            ..self
        }
    }

    /// The table after an order that does not cross: the order takes its
    /// side of the book where its price is strictly better than the quote
    /// that rests there, and changes nothing where it is not.
    pub open spec fn after_quote(self, order: Order) -> Table {
        let book = self.books.book(order.card);
        let quote = Quote { price: order.price, player_name: Some(order.player_name) };
        let improved = match order.direction {
            Direction::Buy => if order.price > book.bid.price {
                Book { bid: quote, ..book }
            } else {
                book
            },
            Direction::Sell => if order.price < book.ask.price {
                Book { ask: quote, ..book }
            } else {
                book
            },
        };
        Table { books: self.books.with(order.card, improved), ..self }
    }

    /// Why `order` is turned away, if it is.
    pub open spec fn verdict(self, order: Order) -> Option<Rejection> {
        if order.price == 0 {
            Some(Rejection::ZeroPrice)
        } else if order.direction == Direction::Sell && self.inventories[self.seat(
            order.player_name,
        )].held(order.card) == 0 {
            Some(Rejection::NoInventory)
        } else if self.crosses(order) {
            self.refusal(self.crossing_trade(order))
        } else {
            None
        }
    }

    /// The trade that `order` makes, if it makes one.
    pub open spec fn trade_of(self, order: Order) -> Option<Trade> {
        if self.verdict(order) is None && self.crosses(order) {
            Some(self.crossing_trade(order))
        } else {
            None
        }
    }

    /// The table after `order`.
    pub open spec fn after_order(self, order: Order) -> Table {
        if self.verdict(order) is Some {
            self
        } else if self.crosses(order) {
            self.after_trade(self.crossing_trade(order))
        } else {
            self.after_quote(order)
        }
    }

    /// What `order` comes to: the reason for which it is turned away, or the
    /// update that tells the books after it and its trade.
    pub open spec fn outcome(self, order: Order) -> Result<Update, Rejection> {
        match self.verdict(order) {
            Some(reason) => Err(reason),
            None => Ok(self.after_order(order).books.report(self.trade_of(order))),
        }
    }
}

/// A seated player's seat is a place of the roster, and the player's own.
pub proof fn lemma_seat(table: Table, name: PlayerName)
    requires
        table.seats(name),
    ensures
        0 <= table.seat(name) < table.roster.len(),
        table.roster[table.seat(name)] == name,
{
}

/// A trade that is not refused stays within the machine's range at each of
/// its steps, leaves a well-formed table, and moves points and cards without
/// making or losing any.
pub proof fn lemma_trade_is_fair(table: Table, trade: Trade)
    requires
        table.wf(),
        table.seats(trade.buyer),
        table.seats(trade.seller),
        table.refusal(trade) is None,
    ensures
        table.after_trade(trade).wf(),
        points_total(table.after_trade(trade).points) == points_total(table.points),
        forall|card: Card| #[trigger]
            cards_total(table.after_trade(trade).inventories, card) == cards_total(
                table.inventories,
                card,
            ),
        ({
            let buyer = table.seat(trade.buyer);
            let seller = table.seat(trade.seller);
            let given = table.inventories.update(
                seller,
                table.inventories[seller].changed(trade.card, -1),
            );
            let paid = table.points.update(
                buyer,
                (table.points[buyer] - trade.price) as usize,
            );
            &&& table.inventories[seller].can_change(trade.card, -1)
            &&& given[buyer].can_change(trade.card, 1)
            &&& paid[seller] + trade.price <= usize::MAX
        }),
{
    lemma_seat(table, trade.buyer);
    lemma_seat(table, trade.seller);
    let after = table.after_trade(trade);
    let buyer = table.seat(trade.buyer);
    let seller = table.seat(trade.seller);
    let sold = table.inventories[seller].changed(trade.card, -1);
    let given = table.inventories.update(seller, sold);
    let bought = given[buyer].changed(trade.card, 1);
    let taken = given.update(buyer, bought);
    let paid = table.points.update(buyer, (table.points[buyer] - trade.price) as usize);
    let received = paid.update(seller, (paid[seller] + trade.price) as usize);

    assert(cards_total(table.inventories, trade.card) <= usize::MAX);
    if buyer != seller {
        lemma_points_pair(table.points, buyer, seller);
        lemma_cards_pair(table.inventories, trade.card, buyer, seller);
    }
    lemma_points_update(table.points, buyer, (table.points[buyer] - trade.price) as usize);
    lemma_points_update(paid, seller, (paid[seller] + trade.price) as usize);
    assert forall|card: Card| #[trigger]
        cards_total(after.inventories, card) == cards_total(table.inventories, card) by {
        lemma_cards_update(table.inventories, card, seller, sold);
        lemma_cards_update(given, card, buyer, bought);
    }
    assert forall|card: Card|
        (#[trigger] after.books.book(card)).is_clear() && after.books.book(card).sound()
            && after.books.book(card).at_rest() by {
        assert(table.books.cleared().book(card).is_clear());
    }
}

/// An order that does not cross leaves a well-formed table.
pub proof fn lemma_quote_is_sound(table: Table, order: Order)
    requires
        table.wf(),
        table.seats(order.player_name),
        !table.crosses(order),
    ensures
        table.after_quote(order).wf(),
{
    let after = table.after_quote(order);
    assert forall|card: Card|
        {
            let book = #[trigger] after.books.book(card);
            &&& book.sound()
            &&& book.at_rest()
            &&& book.bid.player_name matches Some(name) ==> after.seats(name)
            &&& book.ask.player_name matches Some(name) ==> after.seats(name)
        } by {
        let before = table.books.book(card);
        assert(before.sound() && before.at_rest());
    }
}

impl MatchMaker {
    /// Makes `trade` unless it must be refused.
    fn execute(&mut self, trade: Trade) -> (outcome: Result<Update, Rejection>)
        requires
            old(self)@.wf(),
            old(self)@.seats(trade.buyer),
            old(self)@.seats(trade.seller),
        ensures
            final(self)@.wf(),
            final(self).rng == old(self).rng,
            match old(self)@.refusal(trade) {
                Some(reason) => outcome == Err::<Update, Rejection>(reason) && final(self)@ == old(
                    self,
                )@,
                None => final(self)@ == old(self)@.after_trade(trade) && outcome == Ok::<
                    Update,
                    Rejection,
                >(final(self)@.books.report(Some(trade))),
            },
    {
        let buyer = self.seat_of(trade.buyer);
        let seller = self.seat_of(trade.seller);
        let mut sold = self.player_inventories[seller];
        if sold.get(&trade.card) == 0 {
            return Err(Rejection::NoInventory);
        }
        if self.player_points[buyer] < trade.price {
            return Err(Rejection::InsufficientPoints);
        }
        proof {
            lemma_trade_is_fair(self@, trade);
        }
        sold.change(trade.card, -1);
        self.player_inventories.set(seller, sold);
        let mut bought = self.player_inventories[buyer];
        bought.change(trade.card, 1);
        self.player_inventories.set(buyer, bought);

        let paid = self.player_points[buyer] - trade.price;
        self.player_points.set(buyer, paid);
        let received = self.player_points[seller] + trade.price;
        self.player_points.set(seller, received);

        self.books.reset_quotes();
        let mut book = self.books.get(trade.card);
        book.update_last_trade(trade.price);
        self.books.set(trade.card, book);
        proof {
            assert(self@ =~= old(self)@.after_trade(trade));
        }
        Ok(self.books.snapshot(Some(trade)))
    }

    /// Takes in one order: turns it away, or lets it trade against the
    /// quote it crosses, or lets it rest where it improves its side. An
    /// order that is taken in comes back as the update to tell the players;
    /// where that update carries a trade, what was sent before it is stale
    /// and is to be thrown away unread.
    pub fn process_order(&mut self, order: Order) -> (outcome: Result<Update, Rejection>)
        requires
            old(self)@.wf(),
            old(self)@.seats(order.player_name),
        ensures
            final(self)@ == old(self)@.after_order(order),
            outcome == old(self)@.outcome(order),
            final(self)@.wf(),
            final(self).rng == old(self).rng,
    {
        if order.price == 0 {
            return Err(Rejection::ZeroPrice);
        }
        let book = self.books.get(order.card);
        match order.direction {
            Direction::Buy => {
                if let Some(seller) = book.ask.player_name {
                    if order.price >= book.ask.price {
                        return self.execute(
                            Trade {
                                card: order.card,
                                price: book.ask.price,
                                buyer: order.player_name,
                                seller,
                            },
                        );
                    }
                }
                proof {
                    lemma_quote_is_sound(self@, order);
                }
                if order.price > book.bid.price {
                    let quote = Quote { price: order.price, player_name: Some(order.player_name) };
                    self.books.set(order.card, Book { bid: quote, ..book });
                }
            },
            Direction::Sell => {
                let sender = self.seat_of(order.player_name);
                if self.player_inventories[sender].get(&order.card) == 0 {
                    return Err(Rejection::NoInventory);
                }
                if let Some(buyer) = book.bid.player_name {
                    if order.price <= book.bid.price {
                        return self.execute(
                            Trade {
                                card: order.card,
                                price: book.bid.price,
                                buyer,
                                seller: order.player_name,
                            },
                        );
                    }
                }
                proof {
                    lemma_quote_is_sound(self@, order);
                }
                if order.price < book.ask.price {
                    let quote = Quote { price: order.price, player_name: Some(order.player_name) };
                    self.books.set(order.card, Book { ask: quote, ..book });
                }
            },
        }
        proof {
            assert(self@ =~= old(self)@.after_order(order));
        }
        Ok(self.books.snapshot(None))
    }
}

} // verus!
