//! Orders that wait in line. A trade empties every book, so whatever was in
//! line behind the order that traded was written against quotes that are
//! gone: it is drained, unread.

use vstd::prelude::*;

use crate::match_maker::{MatchMaker, Table};
use crate::models::event::Update;
use crate::models::order::Order;

verus! {

impl Table {
    /// Whether each of `orders` comes from a seated player.
    pub open spec fn all_seated(self, orders: Seq<Order>) -> bool {
        forall|at: int| 0 <= at < orders.len() ==> self.seats((#[trigger] orders[at]).player_name)
    }

    /// The updates that `order` adds to what is told: one if it is taken in,
    /// none if it is turned away.
    pub open spec fn told(self, order: Order) -> Seq<Update> {
        match self.outcome(order) {
            Ok(update) => seq![update],
            Err(_) => Seq::empty(),
        }
    }

    /// The table after the orders of `queue` were taken from its front one
    /// by one, up to and including the first that trades.
    pub open spec fn after_queue(self, queue: Seq<Order>) -> Table
        decreases queue.len(),
    {
        if queue.len() == 0 {
            self
        } else if self.trade_of(queue[0]) is Some {
            self.after_order(queue[0])
        } else {
            self.after_order(queue[0]).after_queue(queue.drop_first())
        }
    }

    /// The updates to tell while `queue` is worked off, in their order.
    pub open spec fn queue_updates(self, queue: Seq<Order>) -> Seq<Update>
        decreases queue.len(),
    {
        if queue.len() == 0 {
            Seq::empty()
        } else if self.trade_of(queue[0]) is Some {
            self.told(queue[0])
        } else {
            self.told(queue[0]) + self.after_order(queue[0]).queue_updates(queue.drop_first())
        }
    }
}

/// Working off a queue tells at most one trade, and tells it last.
pub proof fn lemma_queue_trades_once(table: Table, queue: Seq<Order>, at: int)
    requires
        0 <= at < table.queue_updates(queue).len() - 1,
    ensures
        table.queue_updates(queue)[at].trade is None,
    decreases queue.len(),
{
    if queue.len() > 0 && table.trade_of(queue[0]) is None {
        let first = table.told(queue[0]);
        if at >= first.len() {
            lemma_queue_trades_once(
                table.after_order(queue[0]),
                queue.drop_first(),
                at - first.len(),
            );
        }
    }
}

/// Once the orders of `head` have led to a trade, whatever waits behind
/// them in `tail` changes nothing and is told to nobody.
pub proof fn lemma_drain(table: Table, head: Seq<Order>, tail: Seq<Order>)
    requires
        table.queue_updates(head).len() > 0,
        table.queue_updates(head).last().trade is Some,
    ensures
        table.after_queue(head + tail) == table.after_queue(head),
        table.queue_updates(head + tail) == table.queue_updates(head),
    decreases head.len(),
{
    let queue = head + tail;
    assert(head.len() > 0);
    assert(queue[0] == head[0]);
    if table.trade_of(head[0]) is None {
        assert(queue.drop_first() =~= head.drop_first() + tail);
        let next = table.after_order(head[0]);
        let rest = next.queue_updates(head.drop_first());
        assert(table.queue_updates(head) == table.told(head[0]) + rest);
        assert(rest.len() > 0);
        assert(rest.last() == table.queue_updates(head).last());
        lemma_drain(next, head.drop_first(), tail);
    }
}

impl MatchMaker {
    /// Works off the orders that wait in `queue`, front first, as
    /// `process_order` does each, and stops behind the first that trades:
    /// the rest is drained. Returns the updates to tell, in their order.
    pub fn process_queue(&mut self, queue: Vec<Order>) -> (updates: Vec<Update>)
        requires
            old(self)@.wf(),
            old(self)@.all_seated(queue@),
        ensures
            final(self)@ == old(self)@.after_queue(queue@),
            updates@ == old(self)@.queue_updates(queue@),
            final(self)@.wf(),
            final(self).rng == old(self).rng,
    {
        let mut updates: Vec<Update> = Vec::new();
        let mut i: usize = 0;
        proof {
            assert(queue@.skip(0) =~= queue@);
        }
        while i < queue.len()
            invariant
                i <= queue.len(),
                self@.wf(),
                self@.roster == old(self)@.roster,
                self.rng == old(self).rng,
                old(self)@.all_seated(queue@),
                old(self)@.after_queue(queue@) == self@.after_queue(queue@.skip(i as int)),
                old(self)@.queue_updates(queue@) == updates@ + self@.queue_updates(
                    queue@.skip(i as int),
                ),
            decreases queue.len() - i,
        {
            let order = queue[i];
            let ghost before = self@;
            let ghost waiting = queue@.skip(i as int);
            proof {
                assert(waiting[0] == order);
                assert(waiting.drop_first() =~= queue@.skip(i as int + 1));
                assert(before.seats(order.player_name));
            }
            match self.process_order(order) {
                Ok(update) => {
                    updates.push(update);
                    if update.trade.is_some() {
                        proof {
                            assert(updates@ =~= old(self)@.queue_updates(queue@));
                        }
                        return updates;
                    }
                },
                Err(_) => {},
            }
            proof {
                assert(updates@ + self@.queue_updates(queue@.skip(i as int + 1)) =~= old(
                    self,
                )@.queue_updates(queue@));
            }
            i = i + 1;
        }
        proof {
            assert(updates@ =~= old(self)@.queue_updates(queue@));
        }
        updates
    }
}

} // verus!
