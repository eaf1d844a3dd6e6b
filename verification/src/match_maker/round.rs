//! The round: the phases it runs through, and what its driver is to do
//! between them.

use vstd::prelude::*;

use crate::match_maker::dealing::{deck_of, is_shuffled, lemma_deal_is_bounded, lemma_deck};
use crate::match_maker::ledger::{cards_total, points_total};
use crate::match_maker::settlement::{
    lemma_antes_keep_points, lemma_settlement_pays_from_the_pot,
};
use crate::match_maker::{MatchMaker, Phase, Table};
use crate::models::event::Event;
use crate::models::inventory::Inventory;
use crate::models::Card;
use crate::player::PlayerName;

verus! {

/// The seconds for which orders are taken in during a round.
pub const ROUND_SECONDS: u64 = 240;

/// The seconds that the players get to make ready before the deal is told.
pub const DEAL_PAUSE_SECONDS: u64 = 5;

/// The seconds that the players get to look at their cards before the
/// books open.
pub const BOOK_PAUSE_SECONDS: u64 = 2;

/// The seconds between the settlement of a round and the next round.
pub const COOLDOWN_SECONDS: u64 = 30;

/// What the driver of a round does for the match maker, which neither
/// waits nor talks itself.
#[derive(Debug, Clone, PartialEq, Eq)]
pub enum Action {
    /// Let so many seconds pass.
    Pause(u64),
    /// Tell the event to every player.
    Broadcast(Event),
    /// For so many seconds, hand each order that arrives to
    /// `process_order`, and tell the update that comes back.
    AcceptOrders(u64),
}

impl Phase {
    /// The phase that follows this one.
    pub open spec fn next(self) -> Phase {
        match self {
            Phase::Ante => Phase::Setup,
            Phase::Setup => Phase::Deal,
            Phase::Deal => Phase::Arm,
            Phase::Arm => Phase::Trading,
            Phase::Trading => Phase::Settlement,
            Phase::Settlement => Phase::Cooldown,
            Phase::Cooldown => Phase::Ante,
        }
    }
}

impl Table {
    /// The hand of each player, in the order of the seats.
    pub open spec fn hands(self) -> Seq<(PlayerName, Inventory)> {
        Seq::new(self.roster.len(), |seat: int| (self.roster[seat], self.inventories[seat]))
    }

    /// The number of the round after this one. The count stops at the
    /// largest number that it can hold.
    pub open spec fn next_round(self) -> u32 {
        if self.round < u32::MAX {
            (self.round + 1) as u32
        } else {
            self.round
        }
    }

    /// Whether `after` is this table one phase on. Where the phase draws,
    /// the common suit in `Setup` and the deck in `Deal`, any draw will do.
    pub open spec fn steps_to(self, after: Table) -> bool {
        match self.phase {
            Phase::Ante => after == (Table { phase: Phase::Setup, ..self.after_antes() }),
            Phase::Setup => after == (Table {
                phase: Phase::Deal,
                common_suit: after.common_suit,
                goal_suit: after.common_suit.partner(),
                ..self
            }),
            Phase::Deal => exists|short_first: bool, deck: Seq<Card>|
                is_shuffled(deck, self.common_suit, short_first) && after == (Table {
                    phase: Phase::Arm,
                    ..self.after_deal(deck)
                }),
            Phase::Arm => after == (Table {
                phase: Phase::Trading,
                books: self.books.cleared(),
                ..self
            }),
            Phase::Trading => after == (Table { phase: Phase::Settlement, ..self }),
            Phase::Settlement => after == (Table { phase: Phase::Cooldown, ..self.settled() }),
            Phase::Cooldown => after == (Table {
                phase: Phase::Ante,
                round: self.next_round(),
                ..self
            }),
        }
    }

    /// Whether `actions` is what the driver is to do once this table has
    /// left the phase `from`: at `Arm` to tell the deal and the open books,
    /// each after a pause, and then to take orders in; at `Trading` to tell
    /// the end of the round; at `Cooldown` to pause; else nothing.
    pub open spec fn asks_for(self, from: Phase, actions: Seq<Action>) -> bool {
        match from {
            Phase::Arm => {
                &&& actions.len() == 5
                &&& actions[0] == Action::Pause(DEAL_PAUSE_SECONDS)
                &&& actions[1] matches Action::Broadcast(Event::DealCards(hands)) && hands@
                    == self.hands()
                &&& actions[2] == Action::Pause(BOOK_PAUSE_SECONDS)
                &&& actions[3] == Action::Broadcast(Event::Update(self.books.report(None)))
                &&& actions[4] == Action::AcceptOrders(ROUND_SECONDS)
            },
            Phase::Trading => actions == seq![Action::Broadcast(Event::EndRound)],
            Phase::Cooldown => actions == seq![Action::Pause(COOLDOWN_SECONDS)],
            _ => actions.len() == 0,
        }
    }
}

/// Every phase leaves the table well formed. No phase but the settlement
/// makes or loses a point: the points of all seats and the pot come to the
/// same before and after. No phase but the deal makes or loses a card: all
/// seats together hold of each suit what they held.
pub proof fn lemma_step_keeps_table(table: Table, after: Table, card: Card)
    requires
        table.wf(),
        table.steps_to(after),
    ensures
        after.wf(),
        after.roster == table.roster,
        after.phase == table.phase.next(),
        table.phase != Phase::Settlement ==> points_total(after.points) + after.pot
            == points_total(table.points) + table.pot,
        table.phase == Phase::Settlement ==> points_total(after.points) + after.pot
            <= points_total(table.points) + table.pot,
        table.phase != Phase::Deal ==> cards_total(after.inventories, card) == cards_total(
            table.inventories,
            card,
        ),
{
    broadcast use vstd::seq_lib::group_to_multiset_ensures;

    match table.phase {
        Phase::Ante => {
            lemma_antes_keep_points(table);
        },
        Phase::Deal => {
            let (short_first, deck) = choose|short_first: bool, deck: Seq<Card>|
                is_shuffled(deck, table.common_suit, short_first) && after == (Table {
                    phase: Phase::Arm,
                    ..table.after_deal(deck)
                });
            lemma_deck(table.common_suit, short_first, card);
            let laid = deck_of(table.common_suit, short_first);
            assert(deck.len() == deck.to_multiset().len());
            assert(laid.len() == laid.to_multiset().len());
            assert forall|suit: Card| #[trigger]
                cards_total(after.inventories, suit) <= usize::MAX by {
                lemma_deal_is_bounded(deck, table.roster.len(), suit);
            }
        },
        Phase::Arm => {
            assert forall|suit: Card| (#[trigger] after.books.book(suit)).is_clear() by {
                assert(table.books.cleared().book(suit).is_clear());
            }
        },
        Phase::Settlement => {
            lemma_settlement_pays_from_the_pot(table);
        },
        _ => {},
    }
}

impl MatchMaker {
    /// The hand of each player, in the order of the seats.
    pub fn hands(&self) -> (hands: Vec<(PlayerName, Inventory)>)
        requires
            self@.roster.len() == self@.inventories.len(),
        ensures
            hands@ == self@.hands(),
    {
        let mut hands: Vec<(PlayerName, Inventory)> = Vec::new();
        let mut seat: usize = 0;
        while seat < self.player_names.len()
            invariant
                seat <= self.player_names.len(),
                self@.roster.len() == self@.inventories.len(),
                hands@ == self@.hands().take(seat as int),
            decreases self.player_names.len() - seat,
        {
            hands.push((self.player_names[seat], self.player_inventories[seat]));
            seat = seat + 1;
            proof {
                assert(hands@ =~= self@.hands().take(seat as int));
            }
        }
        proof {
            assert(hands@ =~= self@.hands());
        }
        hands
    }

    /// Starts what the phase of the round calls for, takes the round one
    /// phase on, and returns what the driver is to do before it calls
    /// again. `Ante` collects the antes, `Setup` draws the common suit,
    /// `Deal` deals, `Arm` empties the books and opens the trading,
    /// `Trading` closes it, `Settlement` pays out the pot, `Cooldown` counts
    /// the round and leads to the next.
    pub fn start(&mut self) -> (actions: Vec<Action>)
        requires
            old(self)@.wf(),
        ensures
            old(self)@.steps_to(final(self)@),
            final(self)@.asks_for(old(self)@.phase, actions@),
            final(self)@.phase == old(self)@.phase.next(),
            final(self)@.wf(),
    {
        let mut actions: Vec<Action> = Vec::new();
        match self.phase {
            Phase::Ante => {
                self.collect_antes();
                self.phase = Phase::Setup;
            },
            Phase::Setup => {
                self.pick_new_common_suit();
                self.phase = Phase::Deal;
            },
            Phase::Deal => {
                self.get_new_inventories();
                self.phase = Phase::Arm;
            },
            Phase::Arm => {
                self.books.reset_quotes();
                self.phase = Phase::Trading;
                actions.push(Action::Pause(DEAL_PAUSE_SECONDS));
                actions.push(Action::Broadcast(Event::DealCards(self.hands())));
                actions.push(Action::Pause(BOOK_PAUSE_SECONDS));
                actions.push(Action::Broadcast(Event::Update(self.books.snapshot(None))));
                actions.push(Action::AcceptOrders(ROUND_SECONDS));
                proof {
                    assert forall|card: Card|
                        (#[trigger] self@.books.book(card)).is_clear() by {
                        assert(old(self)@.books.cleared().book(card).is_clear());
                    }
                }
            },
            Phase::Trading => {
                self.phase = Phase::Settlement;
                actions.push(Action::Broadcast(Event::EndRound));
                proof {
                    assert(actions@ =~= seq![Action::Broadcast(Event::EndRound)]);
                }
            },
            Phase::Settlement => {
                self.settle();
                self.phase = Phase::Cooldown;
            },
            Phase::Cooldown => {
                if self.round < u32::MAX {
                    self.round = self.round + 1;
                }
                self.phase = Phase::Ante;
                actions.push(Action::Pause(COOLDOWN_SECONDS));
                proof {
                    assert(actions@ =~= seq![Action::Pause(COOLDOWN_SECONDS)]);
                }
            },
        }
        actions
    }
}

} // verus!
