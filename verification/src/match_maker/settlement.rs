//! The pot: the antes that fill it and the settlement that pays it out.

use vstd::prelude::*;

use crate::match_maker::ledger::{
    cards_total, lemma_cards_nonnegative, lemma_cards_prefix, lemma_cards_share,
    lemma_points_nonnegative,
    lemma_points_share, lemma_points_update, points_total,
};
use crate::match_maker::{MatchMaker, Table};
use crate::models::inventory::Inventory;
use crate::models::Card;

verus! {

/// The points that the players of a round put up together, as far as the
/// division among them allows.
pub const ANTE_POOL: usize = 200;

/// The points that the pot pays for each card of the goal suit.
pub const GOAL_CARD_VALUE: usize = 10;

/// The first seat at or behind `from` whose points do not reach `ante`, or
/// the number of seats if there is none.
pub open spec fn short_from(points: Seq<usize>, ante: int, from: int) -> int
    decreases points.len() - from,
{
    if from < 0 || from >= points.len() || points[from] < ante {
        from
    } else {
        short_from(points, ante, from + 1)
    }
}

/// The points after the first `paid` seats have paid `ante` each.
pub open spec fn antes_paid(points: Seq<usize>, ante: int, paid: int) -> Seq<usize> {
    Seq::new(
        points.len(),
        |seat: int|
            if seat < paid {
                (points[seat] - ante) as usize
            } else {
                points[seat]
            },
    )
}

/// The most cards of a suit that any one seat holds.
pub open spec fn most_held(inventories: Seq<Inventory>, card: Card) -> int
    decreases inventories.len(),
{
    if inventories.len() == 0 {
        0
    } else if inventories.last().held(card) >= most_held(inventories.drop_last(), card) {
        inventories.last().held(card)
    } else {
        most_held(inventories.drop_last(), card)
    }
}

/// The number of seats that hold exactly `count` cards of a suit.
pub open spec fn holders(inventories: Seq<Inventory>, card: Card, count: int) -> int
    decreases inventories.len(),
{
    if inventories.len() == 0 {
        0
    } else {
        holders(inventories.drop_last(), card, count) + if inventories.last().held(card)
            == count {
            1int
        } else {
            0int
        }
    }
}

impl Table {
    /// What each player puts up at the start of a round.
    pub open spec fn ante(self) -> int {
        ANTE_POOL as int / self.roster.len() as int
    }

    /// The number of seats that pay the ante: the seats are asked in their
    /// order, and the asking ends at the first that cannot pay.
    pub open spec fn payers(self) -> int {
        short_from(self.points, self.ante(), 0)
    }

    /// The table after the antes: each paying seat has the ante less, and
    /// the pot has what they paid.
    pub open spec fn after_antes(self) -> Table {
        Table {
            points: antes_paid(self.points, self.ante(), self.payers()),
            pot: (self.pot + self.payers() * self.ante()) as usize,
            ..self
        }
    }

    /// What the pot owes for the cards of the goal suit.
    pub open spec fn stipends(self) -> int {
        GOAL_CARD_VALUE * cards_total(self.inventories, self.goal_suit)
    }

    /// Whether the pot holds what it owes for the cards of the goal suit.
    pub open spec fn covered(self) -> bool {
        self.stipends() <= self.pot
    }

    /// The most cards of the goal suit that any seat holds.
    pub open spec fn most(self) -> int {
        most_held(self.inventories, self.goal_suit)
    }

    /// The number of seats that hold the most cards of the goal suit.
    pub open spec fn winners(self) -> int {
        holders(self.inventories, self.goal_suit, self.most())
    }

    /// What each winner gets of the rest of the pot: its equal part, rounded
    /// down.
    pub open spec fn bonus(self) -> int {
        (self.pot - self.stipends()) / self.winners()
    }

    /// What the pot pays to `seat`: the value of its cards of the goal suit,
    /// and the bonus if it is a winner.
    pub open spec fn payout(self, seat: int) -> int {
        let cards = self.inventories[seat].held(self.goal_suit);
        GOAL_CARD_VALUE * cards + if cards == self.most() {
            self.bonus()
        } else {
            0
        }
    }

    /// The table after the settlement. A pot that holds what it owes pays
    /// every seat and is empty after it: what the winners cannot share
    /// equally is lost. A pot that does not is left as it is, and nobody is
    /// paid.
    pub open spec fn settled(self) -> Table {
        if self.covered() {
            Table {
                points: Seq::new(
                    self.points.len(),
                    |seat: int| (self.points[seat] + self.payout(seat)) as usize,
                ),
                pot: 0,
                ..self
            }
        } else {
            self
        }
    }
}

/// What a settlement came to, for those who report it.
#[derive(Debug, Clone, Copy, PartialEq, Eq, Structural)]
pub struct Settlement {
    /// The most cards of the goal suit that any seat held.
    pub most: usize,
    /// The number of seats that held that many.
    pub winners: usize,
    /// What each of them got of the rest of the pot.
    pub bonus: usize,
}

/// The asking for antes ends at a seat behind which nobody was asked, and
/// every seat before it can pay.
pub proof fn lemma_short_from(points: Seq<usize>, ante: int, from: int, seat: int)
    requires
        0 <= from <= points.len(),
    ensures
        from <= short_from(points, ante, from) <= points.len(),
        from <= seat < short_from(points, ante, from) ==> points[seat] >= ante,
        short_from(points, ante, from) < points.len() ==> points[short_from(points, ante, from)]
            < ante,
    decreases points.len() - from,
{
    if from < points.len() && points[from] >= ante {
        lemma_short_from(points, ante, from + 1, seat);
    }
}

/// Seats that pay an ante have together that much less.
pub proof fn lemma_antes_paid(points: Seq<usize>, ante: int, paid: int)
    requires
        0 <= ante,
        0 <= paid <= points.len(),
        forall|seat: int| 0 <= seat < paid ==> points[seat] >= ante,
    ensures
        points_total(antes_paid(points, ante, paid)) == points_total(points) - paid * ante,
        0 <= paid * ante <= points_total(points),
    decreases paid,
{
    if paid == 0 {
        assert(antes_paid(points, ante, 0) =~= points);
        assert(0 * ante == 0) by (nonlinear_arith);
        lemma_points_nonnegative(points);
    } else {
        let before = antes_paid(points, ante, paid - 1);
        lemma_antes_paid(points, ante, paid - 1);
        assert(antes_paid(points, ante, paid) =~= before.update(
            paid - 1,
            (points[paid - 1] - ante) as usize,
        ));
        lemma_points_update(before, paid - 1, (points[paid - 1] - ante) as usize);
        assert(paid * ante == (paid - 1) * ante + ante) by (nonlinear_arith);
        lemma_points_nonnegative(antes_paid(points, ante, paid));
    }
}

/// The antes make no point and lose none: what the seats pay is in the pot.
/// They leave the table well formed and every holding as it was.
pub proof fn lemma_antes_keep_points(table: Table)
    requires
        table.wf(),
    ensures
        table.after_antes().wf(),
        0 <= table.payers() <= table.roster.len(),
        table.after_antes().pot == table.pot + table.payers() * table.ante(),
        points_total(table.after_antes().points) + table.after_antes().pot == points_total(
            table.points,
        ) + table.pot,
        table.after_antes().inventories == table.inventories,
{
    let ante = table.ante();
    assert(0 <= ante) by (nonlinear_arith)
        requires
            ante == ANTE_POOL as int / table.roster.len() as int,
            table.roster.len() > 0,
    ;
    lemma_short_from(table.points, ante, 0, 0);
    assert forall|seat: int| 0 <= seat < table.payers() implies table.points[seat] >= ante by {
        lemma_short_from(table.points, ante, 0, seat);
    }
    lemma_antes_paid(table.points, ante, table.payers());
}

/// No seat holds more of a suit than the most that a seat holds, and the
/// most is held by a seat.
pub proof fn lemma_most_held(inventories: Seq<Inventory>, card: Card, seat: int)
    requires
        0 <= seat < inventories.len(),
    ensures
        0 <= inventories[seat].held(card) <= most_held(inventories, card),
        1 <= holders(inventories, card, most_held(inventories, card)),
    decreases inventories.len(),
{
    let rest = inventories.drop_last();
    let last = inventories.last().held(card);
    let most = most_held(inventories, card);
    lemma_holders(rest, card, most, 0);
    if rest.len() == 0 {
        assert(most_held(rest, card) == 0);
        assert(most == last);
    } else {
        lemma_most_held(
            rest,
            card,
            if seat < rest.len() {
                seat
            } else {
                0
            },
        );
        if last >= most_held(rest, card) {
            assert(most == last);
        } else {
            assert(most == most_held(rest, card));
        }
    }
}

/// The seats that hold a given count of a suit are no more than the seats,
/// and a seat that holds the count is one of them.
pub proof fn lemma_holders(inventories: Seq<Inventory>, card: Card, count: int, seat: int)
    ensures
        0 <= holders(inventories, card, count) <= inventories.len(),
        0 <= seat < inventories.len() && inventories[seat].held(card) == count ==> 1
            <= holders(inventories, card, count),
    decreases inventories.len(),
{
    if inventories.len() > 0 {
        lemma_holders(inventories.drop_last(), card, count, seat);
    }
}

/// No seat holds more of a suit than the most that is held.
pub proof fn lemma_nobody_above_most(inventories: Seq<Inventory>, card: Card, count: int)
    requires
        count > most_held(inventories, card),
    ensures
        holders(inventories, card, count) == 0,
    decreases inventories.len(),
{
    if inventories.len() > 0 {
        lemma_nobody_above_most(inventories.drop_last(), card, count);
    }
}

/// What the pot pays to the seats of `inventories` together, at `bonus` for
/// each seat that holds `most`.
pub open spec fn paid_out(inventories: Seq<Inventory>, card: Card, most: int, bonus: int) -> int {
    GOAL_CARD_VALUE * cards_total(inventories, card) + bonus * holders(inventories, card, most)
}

/// A pot that holds what it owes has a winner to pay, pays no seat less
/// than nothing, and pays all seats together no more than it holds.
pub proof fn lemma_pot_suffices(table: Table)
    requires
        table.wf(),
        table.covered(),
    ensures
        1 <= table.winners() <= table.roster.len(),
        0 <= table.most(),
        0 <= table.stipends(),
        0 <= table.bonus(),
        table.bonus() * table.winners() <= table.pot - table.stipends(),
        paid_out(table.inventories, table.goal_suit, table.most(), table.bonus()) <= table.pot,
        (table.pot - table.stipends()) % table.winners() == 0 ==> paid_out(
            table.inventories,
            table.goal_suit,
            table.most(),
            table.bonus(),
        ) == table.pot,
{
    lemma_most_held(table.inventories, table.goal_suit, 0);
    lemma_holders(table.inventories, table.goal_suit, table.most(), 0);
    lemma_cards_nonnegative(table.inventories, table.goal_suit);
    let rest = table.pot - table.stipends();
    let winners = table.winners();
    assert(0 <= rest / winners && (rest / winners) * winners <= rest && (rest % winners == 0
        ==> (rest / winners) * winners == rest)) by (nonlinear_arith)
        requires
            0 <= rest,
            1 <= winners,
    ;
}

/// What the pot pays to one seat is part of what it pays to all, so the
/// seat's points stay within the machine's range.
pub proof fn lemma_payout_fits(table: Table, seat: int)
    requires
        table.wf(),
        table.covered(),
        0 <= seat < table.roster.len(),
    ensures
        0 <= table.payout(seat),
        GOAL_CARD_VALUE * table.inventories[seat].held(table.goal_suit) <= table.pot,
        table.payout(seat) <= table.pot,
        table.points[seat] + table.payout(seat) <= usize::MAX,
{
    lemma_pot_suffices(table);
    lemma_cards_share(table.inventories, table.goal_suit, seat);
    lemma_holders(table.inventories, table.goal_suit, table.most(), seat);
    lemma_points_share(table.points, seat);
    let bonus = table.bonus();
    let winners = table.winners();
    assert(bonus <= bonus * winners) by (nonlinear_arith)
        requires
            0 <= bonus,
            1 <= winners,
    ;
}

/// The first seats have together, after the settlement, what they had and
/// what the pot paid them.
proof fn lemma_settled_prefix(table: Table, seats: int)
    requires
        table.wf(),
        table.covered(),
        0 <= seats <= table.roster.len(),
    ensures
        points_total(table.settled().points.take(seats)) == points_total(
            table.points.take(seats),
        ) + paid_out(
            table.inventories.take(seats),
            table.goal_suit,
            table.most(),
            table.bonus(),
        ),
    decreases seats,
{
    let after = table.settled().points;
    let bonus = table.bonus();
    if seats == 0 {
        assert(after.take(0) =~= Seq::<usize>::empty());
        assert(table.points.take(0) =~= Seq::<usize>::empty());
        assert(table.inventories.take(0) =~= Seq::<Inventory>::empty());
        assert(bonus * 0 == 0) by (nonlinear_arith);
    } else {
        let seat = seats - 1;
        lemma_settled_prefix(table, seat);
        lemma_payout_fits(table, seat);
        assert(after.take(seats).drop_last() =~= after.take(seat));
        assert(table.points.take(seats).drop_last() =~= table.points.take(seat));
        assert(table.inventories.take(seats).drop_last() =~= table.inventories.take(seat));
        let held = holders(table.inventories.take(seat), table.goal_suit, table.most());
        assert(bonus * (held + 1) == bonus * held + bonus && bonus * (held + 0) == bonus * held)
            by (nonlinear_arith);
    }
}

/// The settlement makes no point: the seats have together, after it, what
/// they had and what the pot paid, which is no more than the pot held. It
/// leaves the table well formed and every holding as it was.
pub proof fn lemma_settlement_pays_from_the_pot(table: Table)
    requires
        table.wf(),
    ensures
        table.settled().wf(),
        table.settled().inventories == table.inventories,
        points_total(table.settled().points) + table.settled().pot <= points_total(table.points)
            + table.pot,
        table.covered() ==> points_total(table.settled().points) == points_total(table.points)
            + paid_out(table.inventories, table.goal_suit, table.most(), table.bonus()),
{
    if table.covered() {
        let seats = table.roster.len() as int;
        lemma_settled_prefix(table, seats);
        lemma_pot_suffices(table);
        assert(table.settled().points.take(seats) =~= table.settled().points);
        assert(table.points.take(seats) =~= table.points);
        assert(table.inventories.take(seats) =~= table.inventories);
    }
}

/// Where the winners can share the rest of the pot equally, the settlement
/// pays out the whole pot: the seats have together what they had and what
/// was in the pot.
pub proof fn lemma_settlement_pays_the_whole_pot(table: Table)
    requires
        table.wf(),
        table.covered(),
        (table.pot - table.stipends()) % table.winners() == 0,
    ensures
        points_total(table.settled().points) == points_total(table.points) + table.pot,
{
    lemma_settlement_pays_from_the_pot(table);
    lemma_pot_suffices(table);
}

/// A round without a trade gives back what it took: where the pot is empty
/// before the antes and the winners can share its rest equally at the end,
/// the seats have together, after the settlement, what they had before the
/// antes.
pub proof fn lemma_ante_and_payout_round_trip(table: Table)
    requires
        table.wf(),
        table.pot == 0,
        table.after_antes().covered(),
        (table.after_antes().pot - table.after_antes().stipends())
            % table.after_antes().winners() == 0,
    ensures
        points_total(table.after_antes().settled().points) == points_total(table.points),
{
    lemma_antes_keep_points(table);
    lemma_settlement_pays_the_whole_pot(table.after_antes());
}

impl MatchMaker {
    /// Collects the antes of a round into the pot. The seats are asked in
    /// their order, and the asking ends at the first that cannot pay: the
    /// round goes on with what was collected. Returns the number of seats
    /// that paid.
    pub fn collect_antes(&mut self) -> (paid: usize)
        requires
            old(self)@.wf(),
        ensures
            final(self)@ == old(self)@.after_antes(),
            paid == old(self)@.payers(),
            final(self)@.wf(),
            final(self).rng == old(self).rng,
    {
        let ante = ANTE_POOL / self.player_names.len();
        let ghost before = self@;
        let mut seat: usize = 0;
        proof {
            lemma_antes_keep_points(before);
            assert(self@.points =~= antes_paid(before.points, ante as int, 0));
            assert(0 * ante == 0) by (nonlinear_arith);
        }
        while seat < self.player_points.len() && self.player_points[seat] >= ante
            invariant
                before.wf(),
                before == old(self)@,
                ante == before.ante(),
                seat <= before.roster.len(),
                self.rng == old(self).rng,
                self@ == (Table { points: self@.points, pot: self@.pot, ..before }),
                self@.points == antes_paid(before.points, ante as int, seat as int),
                self.pot == before.pot + seat * ante,
                short_from(before.points, ante as int, seat as int) == before.payers(),
                before.pot + before.payers() * before.ante() <= usize::MAX,
            decreases before.roster.len() - seat,
        {
            proof {
                lemma_short_from(before.points, ante as int, seat as int + 1, 0);
                let paid = before.payers();
                assert((seat + 1) * ante == seat * ante + ante && (seat + 1) * ante <= paid
                    * ante) by (nonlinear_arith)
                    requires
                        seat + 1 <= paid,
                        0 <= ante,
                ;
            }
            let left = self.player_points[seat] - ante;
            self.player_points.set(seat, left);
            self.pot = self.pot + ante;
            seat = seat + 1;
            proof {
                assert(self@.points =~= antes_paid(before.points, ante as int, seat as int));
            }
        }
        proof {
            lemma_short_from(before.points, ante as int, seat as int, 0);
            assert(self@ =~= before.after_antes());
        }
        seat
    }

    /// Settles the round. Where the pot holds ten points for every card of
    /// the goal suit, every seat is paid for its cards of the goal suit,
    /// the seats that hold the most of them share the rest of the pot
    /// equally, and what they cannot share is lost. Where the pot does not
    /// hold that much, nobody is paid and the pot stays.
    pub fn settle(&mut self) -> (settlement: Option<Settlement>)
        requires
            old(self)@.wf(),
        ensures
            final(self)@ == old(self)@.settled(),
            final(self)@.wf(),
            final(self).rng == old(self).rng,
            settlement == if old(self)@.covered() {
                Some(
                    Settlement {
                        most: old(self)@.most() as usize,
                        winners: old(self)@.winners() as usize,
                        bonus: old(self)@.bonus() as usize,
                    },
                )
            } else {
                None
            },
    {
        let ghost before = self@;
        let goal = self.goal_suit;
        let seats = self.player_inventories.len();
        let mut cards: usize = 0;
        let mut most: usize = 0;
        let mut winners: usize = 0;
        let mut seat: usize = 0;
        proof {
            lemma_settlement_pays_from_the_pot(before);
            assert(before.inventories.take(0) =~= Seq::<Inventory>::empty());
        }
        while seat < seats
            invariant
                before == self@,
                before.wf(),
                goal == before.goal_suit,
                seats == before.roster.len(),
                seat <= seats,
                cards == cards_total(before.inventories.take(seat as int), goal),
                most == most_held(before.inventories.take(seat as int), goal),
                winners == holders(before.inventories.take(seat as int), goal, most as int),
            decreases seats - seat,
        {
            let held = self.player_inventories[seat].get(&goal);
            proof {
                let upto = before.inventories.take(seat as int + 1);
                assert(upto.drop_last() =~= before.inventories.take(seat as int));
                assert(upto.last() == before.inventories[seat as int]);
                lemma_cards_share(upto, goal, seat as int);
                lemma_cards_prefix(before.inventories, goal, seat as int + 1);
                lemma_holders(upto, goal, held as int, 0);
                lemma_holders(upto, goal, most as int, 0);
                if held > most {
                    lemma_nobody_above_most(
                        before.inventories.take(seat as int),
                        goal,
                        held as int,
                    );
                }
            }
            cards = cards + held;
            if held > most {
                most = held;
                winners = 1;
            } else if held == most {
                winners = winners + 1;
            }
            seat = seat + 1;
        }
        proof {
            assert(before.inventories.take(seats as int) =~= before.inventories);
        }
        let stipends = match cards.checked_mul(GOAL_CARD_VALUE) {
            Some(stipends) => stipends,
            None => {
                return None;
            },
        };
        if stipends > self.pot {
            return None;
        }
        proof {
            lemma_pot_suffices(before);
        }
        let bonus = (self.pot - stipends) / winners;
        let mut seat: usize = 0;
        proof {
            assert(self@.points =~= Seq::new(
                before.points.len(),
                |at: int|
                    if at < 0 {
                        (before.points[at] + before.payout(at)) as usize
                    } else {
                        before.points[at]
                    },
            ));
        }
        while seat < seats
            invariant
                before == old(self)@,
                before.wf(),
                before.covered(),
                goal == before.goal_suit,
                seats == before.roster.len(),
                most == before.most(),
                bonus == before.bonus(),
                seat <= seats,
                self.rng == old(self).rng,
                self@ == (Table { points: self@.points, ..before }),
                self@.points == Seq::new(
                    before.points.len(),
                    |at: int|
                        if at < seat {
                            (before.points[at] + before.payout(at)) as usize
                        } else {
                            before.points[at]
                        },
                ),
            decreases seats - seat,
        {
            proof {
                lemma_payout_fits(before, seat as int);
            }
            let held = self.player_inventories[seat].get(&goal);
            let mut payout = held * GOAL_CARD_VALUE;
            if held == most {
                payout = payout + bonus;
            }
            let raised = self.player_points[seat] + payout;
            self.player_points.set(seat, raised);
            seat = seat + 1;
            proof {
                assert(self@.points =~= Seq::new(
                    before.points.len(),
                    |at: int|
                        if at < seat {
                            (before.points[at] + before.payout(at)) as usize
                        } else {
                            before.points[at]
                        },
                ));
            }
        }
        self.pot = 0;
        proof {
            assert(self@ =~= before.settled());
        }
        Some(Settlement { most, winners, bonus })
    }
}

} // verus!
