//! What holds between the table and a player that hears all it tells.

use vstd::prelude::*;

use crate::match_maker::laws::lemma_trade_within_means;
use crate::match_maker::matching::{lemma_seat, lemma_trade_is_fair};
use crate::match_maker::Table;
use crate::models::event::{dealt_to, Event};
use crate::models::inventory::Inventory;
use crate::models::order::Order;
use crate::models::Card;
use crate::player::{holding_after, Knowledge, PlayerName};

verus! {

/// A deal holds for a name the hand of the first entry under the name.
pub proof fn lemma_dealt_to(deal: Seq<(PlayerName, Inventory)>, name: PlayerName, at: int)
    requires
        0 <= at < deal.len(),
        deal[at].0 == name,
        forall|before: int| 0 <= before < at ==> deal[before].0 != name,
    ensures
        dealt_to(deal, name) == Some(deal[at].1),
    decreases at,
{
    if at > 0 {
        let rest = deal.drop_first();
        assert forall|before: int| 0 <= before < at - 1 implies rest[before].0 != name by {
            assert(rest[before] == deal[before + 1]);
        }
        lemma_dealt_to(rest, name, at - 1);
    }
}

/// The deal that the match maker tells holds for every seated player the
/// holding of its seat: a player that takes the deal in holds what the
/// table holds for it.
pub proof fn lemma_deal_tells_each_hand(table: Table, name: PlayerName)
    requires
        table.wf(),
        table.seats(name),
    ensures
        dealt_to(table.hands(), name) == Some(table.inventories[table.seat(name)]),
{
    lemma_seat(table, name);
    lemma_dealt_to(table.hands(), name, table.seat(name));
}

/// A player whose holding is that of its seat still holds what its seat
/// holds once it has heard the update of the next order, and knows the
/// books as they are.
pub proof fn lemma_mirror_follows_the_table(
    table: Table,
    order: Order,
    knowledge: Knowledge,
    name: PlayerName,
)
    requires
        table.wf(),
        table.seats(order.player_name),
        table.seats(name),
        knowledge.inventory == table.inventories[table.seat(name)],
        table.outcome(order) is Ok,
    ensures
        ({
            let heard = knowledge.after_event(name, Event::Update(table.outcome(order)->Ok_0));
            &&& heard.inventory == table.after_order(order).inventories[table.seat(name)]
            &&& heard.books == table.after_order(order).books
        }),
{
    let seat = table.seat(name);
    lemma_seat(table, name);
    lemma_seat(table, order.player_name);
    if table.trade_of(order) is Some {
        let trade = table.trade_of(order)->Some_0;
        lemma_seat(table, trade.buyer);
        lemma_seat(table, trade.seller);
        lemma_trade_is_fair(table, trade);
        let after = table.after_order(order).inventories[seat];
        let before = knowledge.inventory;
        let heard = holding_after(before, name, trade);
        assert((trade.buyer == name) == (table.seat(trade.buyer) == seat));
        assert((trade.seller == name) == (table.seat(trade.seller) == seat));
        let sold = if trade.seller == name {
            before.changed(trade.card, -1)
        } else {
            before
        };
        assert(trade.seller == name ==> before.can_change(trade.card, -1));
        assert(trade.buyer == name ==> sold.can_change(trade.card, 1));
        assert(heard == if trade.buyer == name {
            sold.changed(trade.card, 1)
        } else {
            sold
        });
        lemma_trade_within_means(table, order, seat, Card::Spade);
        lemma_trade_within_means(table, order, seat, Card::Club);
        lemma_trade_within_means(table, order, seat, Card::Diamond);
        lemma_trade_within_means(table, order, seat, Card::Heart);
        assert(heard.held(Card::Spade) == after.held(Card::Spade));
        assert(heard.held(Card::Club) == after.held(Card::Club));
        assert(heard.held(Card::Diamond) == after.held(Card::Diamond));
        assert(heard.held(Card::Heart) == after.held(Card::Heart));
        assert(heard == after);
    }
}

} // verus!
