//! The inbox of the match maker: the receiving end of the order channel, as
//! far as it is read without waiting.

use kanal::AsyncReceiver;
use vstd::prelude::*;

use crate::match_maker::matching::Rejection;
use crate::match_maker::MatchMaker;
use crate::models::event::Update;
use crate::models::order::Order;

verus! {

/// The receiving end of an asynchronous channel of `kanal`. What waits in
/// it is closed to the proofs: other tasks send while it is read.
#[verifier::external_type_specification]
#[verifier::external_body]
#[verifier::reject_recursive_types(T)]
pub struct ExAsyncReceiver<T>(kanal::AsyncReceiver<T>);

/// Calls `AsyncReceiver::len` of `kanal`, the number of orders that wait in
/// the channel. Nothing is claimed of the number.
#[verifier::external_body]
fn waiting(inbox: &AsyncReceiver<Order>) -> (orders: usize) {
    inbox.len()
}

/// Calls `AsyncReceiver::try_recv` of `kanal`, which takes the order at the
/// front of the channel if one waits there, and does not wait for one. A
/// channel that is closed counts as one in which nothing waits. Nothing is
/// claimed of the result.
#[verifier::external_body]
fn take_waiting(inbox: &AsyncReceiver<Order>) -> (order: Option<Order>) {
    match inbox.try_recv() {
        Ok(order) => order,
        Err(_) => None,
    }
}

/// Throws away, unread, the orders that wait in `inbox`: as many as wait
/// there when it looks, and no more, so that a sender that keeps sending
/// cannot keep it busy. Returns the number that it threw away.
fn drain(inbox: &AsyncReceiver<Order>) -> (drained: usize) {
    let stale = waiting(inbox);
    let mut drained: usize = 0;
    let mut tried: usize = 0;
    while tried < stale
        invariant
            drained <= tried <= stale,
        decreases stale - tried,
    {
        if take_waiting(inbox).is_some() {
            drained = drained + 1;
        }
        tried = tried + 1;
    }
    drained
}

impl MatchMaker {
    /// Takes in `order`, which came out of `inbox`, as `process_order`
    /// does, and where it traded drains the inbox: the orders that wait
    /// there were written against quotes that the trade has swept away.
    pub fn serve(&mut self, order: Order, inbox: &AsyncReceiver<Order>) -> (outcome: Result<
        Update,
        Rejection,
    >)
        requires
            old(self)@.wf(),
            old(self)@.seats(order.player_name),
        ensures
            final(self)@ == old(self)@.after_order(order),
            outcome == old(self)@.outcome(order),
            final(self)@.wf(),
            final(self).rng == old(self).rng,
    {
        let outcome = self.process_order(order);
        let traded = match outcome {
            Ok(update) => update.trade.is_some(),
            Err(_) => false,
        };
        if traded {
            drain(inbox);
        }
        outcome
    }
}

} // verus!
