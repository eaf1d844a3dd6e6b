//! What holds of the table whatever order arrives.

use vstd::prelude::*;

use crate::match_maker::ledger::{cards_total, points_total};
use crate::match_maker::matching::{
    lemma_quote_is_sound, lemma_seat, lemma_trade_is_fair, Rejection,
};
use crate::match_maker::Table;
use crate::models::book::Quote;
use crate::models::order::{Direction, Order};
use crate::models::Card;

verus! {

/// An order leaves the table well formed: every seat keeps its points and
/// its holding, no count falls below zero, and every book can rest, with
/// its ask above its bid unless a side is empty.
pub proof fn lemma_order_keeps_table(table: Table, order: Order)
    requires
        table.wf(),
        table.seats(order.player_name),
    ensures
        table.after_order(order).wf(),
        table.after_order(order).roster == table.roster,
        forall|card: Card| (#[trigger] table.after_order(order).books.book(card)).at_rest(),
        forall|seat: int, card: Card|
            0 <= seat < table.roster.len() ==> 0 <= #[trigger] table.after_order(
                order,
            ).inventories[seat].held(card),
        forall|seat: int|
            0 <= seat < table.roster.len() ==> 0 <= #[trigger] table.after_order(
                order,
            ).points[seat],
{
    if table.verdict(order) is None {
        if table.crosses(order) {
            lemma_seat(table, order.player_name);
            lemma_trade_is_fair(table, table.crossing_trade(order));
        } else {
            lemma_quote_is_sound(table, order);
        }
    }
}

/// An order makes no card and loses none: all seats together hold of each
/// suit what they held before it.
pub proof fn lemma_order_keeps_cards(table: Table, order: Order, card: Card)
    requires
        table.wf(),
        table.seats(order.player_name),
    ensures
        cards_total(table.after_order(order).inventories, card) == cards_total(
            table.inventories,
            card,
        ),
{
    if table.verdict(order) is None && table.crosses(order) {
        lemma_seat(table, order.player_name);
        lemma_trade_is_fair(table, table.crossing_trade(order));
    }
}

/// An order makes no point and loses none: the points of all seats and the
/// pot come to what they came to before it.
pub proof fn lemma_order_keeps_points(table: Table, order: Order)
    requires
        table.wf(),
        table.seats(order.player_name),
    ensures
        table.after_order(order).pot == table.pot,
        points_total(table.after_order(order).points) + table.after_order(order).pot
            == points_total(table.points) + table.pot,
{
    if table.verdict(order) is None && table.crosses(order) {
        lemma_seat(table, order.player_name);
        lemma_trade_is_fair(table, table.crossing_trade(order));
    }
}

/// After an order that trades no quote rests on any of the four books, the
/// book of the suit remembers the price of the trade, and the other books
/// remember what they did.
pub proof fn lemma_trade_clears_books(table: Table, order: Order, card: Card)
    requires
        table.trade_of(order) is Some,
    ensures
        table.after_order(order).books.all_clear(),
        table.after_order(order).books.book(card).is_clear(),
        table.after_order(order).books.book(card).last_trade == if card == order.card {
            Some(table.trade_of(order)->Some_0.price)
        } else {
            table.books.book(card).last_trade
        },
{
    let after = table.after_order(order).books;
    assert forall|suit: Card| (#[trigger] after.book(suit)).is_clear() by {
        assert(table.books.cleared().book(suit).is_clear());
    }
}

/// An order trades only within the means of both sides: the buyer holds the
/// price and the seller a card of the suit. The trade then moves exactly
/// that price and that one card between the two seats, so that no balance
/// falls below zero, and touches no other seat and no other suit.
pub proof fn lemma_trade_within_means(table: Table, order: Order, seat: int, card: Card)
    requires
        table.wf(),
        table.seats(order.player_name),
        table.trade_of(order) is Some,
        0 <= seat < table.roster.len(),
    ensures
        ({
            let trade = table.trade_of(order)->Some_0;
            let after = table.after_order(order);
            let buyer = table.seat(trade.buyer);
            let seller = table.seat(trade.seller);
            let bought: int = if seat == buyer {
                1
            } else {
                0
            };
            let sold: int = if seat == seller {
                1
            } else {
                0
            };
            &&& trade.card == order.card
            &&& table.points[buyer] >= trade.price
            &&& table.inventories[seller].held(trade.card) >= 1
            &&& after.points[seat] == table.points[seat] + (sold - bought) * trade.price
            &&& after.inventories[seat].held(card) == table.inventories[seat].held(card) + (
            if card == trade.card {
                bought - sold
            } else {
                0
            })
        }),
{
    lemma_seat(table, order.player_name);
    let trade = table.crossing_trade(order);
    lemma_seat(table, trade.buyer);
    lemma_seat(table, trade.seller);
    lemma_trade_is_fair(table, trade);
    let price = trade.price as int;
    assert((1 - 1) * price == 0 && (0 - 1) * price == -price && (1 - 0) * price == price && (0
        - 0) * price == 0) by (nonlinear_arith);
}

/// After an order that trades, no order can trade against what rested
/// before: the next order, whatever it is, meets empty books and does not
/// cross.
pub proof fn lemma_no_second_trade(table: Table, order: Order, next: Order)
    requires
        table.trade_of(order) is Some,
    ensures
        !table.after_order(order).crosses(next),
        table.after_order(order).trade_of(next) is None,
{
    lemma_trade_clears_books(table, order, next.card);
}

/// An order with the price zero is dropped, and nothing changes.
pub proof fn lemma_zero_price_is_dropped(table: Table, order: Order)
    requires
        order.price == 0,
    ensures
        table.outcome(order) == Err::<crate::models::event::Update, Rejection>(
            Rejection::ZeroPrice,
        ),
        table.after_order(order) == table,
{
}

/// An order that is turned away, for whatever reason, changes nothing.
pub proof fn lemma_rejection_changes_nothing(table: Table, order: Order)
    requires
        table.outcome(order) is Err,
    ensures
        table.after_order(order) == table,
{
}

/// A buy at exactly the price of an ask that somebody owns crosses, and so
/// does a sell at exactly the price of a bid that somebody owns. Unless the
/// order is refused for want of points or cards, it trades at that price.
pub proof fn lemma_meeting_the_quote_crosses(table: Table, order: Order)
    requires
        order.price > 0,
        ({
            let book = table.books.book(order.card);
            match order.direction {
                Direction::Buy => !book.ask.vacant() && order.price == book.ask.price,
                Direction::Sell => !book.bid.vacant() && order.price == book.bid.price,
            }
        }),
    ensures
        table.crosses(order),
        table.verdict(order) is None ==> table.trade_of(order) is Some && table.trade_of(
            order,
        )->Some_0.price == order.price,
{
}

/// An order that does not cross replaces the quote on its side only where
/// its price is strictly better: a buy above the bid, a sell below the ask.
/// At the same price or a worse one the books stay as they are.
pub proof fn lemma_only_better_replaces(table: Table, order: Order)
    requires
        table.verdict(order) is None,
        !table.crosses(order),
    ensures
        ({
            let book = table.books.book(order.card);
            let after = table.after_order(order).books.book(order.card);
            let quote = Quote { price: order.price, player_name: Some(order.player_name) };
            match order.direction {
                Direction::Buy => after.ask == book.ask && after.bid == if order.price
                    > book.bid.price {
                    quote
                } else {
                    book.bid
                },
                Direction::Sell => after.bid == book.bid && after.ask == if order.price
                    < book.ask.price {
                    quote
                } else {
                    book.ask
                },
            }
        }),
        table.after_order(order).books.book(order.card).last_trade == table.books.book(
            order.card,
        ).last_trade,
        forall|card: Card|
            card != order.card ==> #[trigger] table.after_order(order).books.book(card)
                == table.books.book(card),
        table.trade_of(order) is None,
{
}

} // verus!
