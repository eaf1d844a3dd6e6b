//! The match maker: the one owner of the points, the holdings and the books.

use rand::rngs::StdRng;
use vstd::prelude::*;

use crate::match_maker::ledger::{
    cards_total, lemma_cards_none, lemma_cards_prefix, lemma_points_even, lemma_points_prefix,
    points_total,
};
use crate::models::book::{Books, Quote};
use crate::models::inventory::Inventory;
use crate::models::Card;
use crate::player::PlayerName;

pub mod dealing;
pub mod inbox;
pub mod laws;
pub mod ledger;
pub mod matching;
pub mod queue;
pub mod round;
pub mod settlement;

verus! {

/// Where a round stands. A round runs through the phases in this order and
/// the next round begins again at `Ante`.
#[derive(Debug, Clone, Copy, PartialEq, Eq, Structural)]
pub enum Phase {
    Ante,
    Setup,
    Deal,
    Arm,
    Trading,
    Settlement,
    Cooldown,
}

/// The state of the game as the rules see it. Seat `i` of the roster owns
/// the points and the holding at `i`.
#[verifier::ext_equal]
pub struct Table {
    pub round: u32,
    pub roster: Seq<PlayerName>,
    pub goal_suit: Card,
    pub common_suit: Card,
    pub points: Seq<usize>,
    pub books: Books,
    pub inventories: Seq<Inventory>,
    pub pot: usize,
    pub phase: Phase,
}

impl Table {
    /// Whether `name` has a seat.
    pub open spec fn seats(self, name: PlayerName) -> bool {
        self.roster.contains(name)
    }

    /// The seat of `name`.
    pub open spec fn seat(self, name: PlayerName) -> int {
        self.roster.index_of(name)
    }

    /// Whether every quote that rests on a book belongs to a seated player.
    pub open spec fn quotes_owned(self) -> bool {
        forall|card: Card|
            {
                let book = #[trigger] self.books.book(card);
                &&& book.bid.player_name matches Some(name) ==> self.seats(name)
                &&& book.ask.player_name matches Some(name) ==> self.seats(name)
            }
    }

    /// What holds of a table at every moment: each player has one seat with
    /// its points and its holding, the books can rest and are quoted by
    /// seated players, and what is on the table can be counted.
    pub open spec fn wf(self) -> bool {
        &&& 0 < self.roster.len()
        &&& self.roster.len() == self.points.len()
        &&& self.roster.len() == self.inventories.len()
        &&& self.roster.no_duplicates()
        &&& self.books.at_rest()
        &&& self.quotes_owned()
        &&& points_total(self.points) + self.pot <= usize::MAX
        &&& forall|card: Card| #[trigger] cards_total(self.inventories, card) <= usize::MAX
    }

    /// Whether `roster` can sit down with `balance` points each.
    pub open spec fn admits(roster: Seq<PlayerName>, balance: usize) -> bool {
        &&& 0 < roster.len()
        &&& roster.no_duplicates()
        &&& roster.len() * balance <= usize::MAX
    }

    /// The table before its first round: `balance` points at each seat, no
    /// card dealt, no quote, nothing in the pot.
    pub open spec fn opening(roster: Seq<PlayerName>, balance: usize) -> Table {
        Table {
            round: 0,
            roster,
            goal_suit: Card::Spade,
            common_suit: Card::Club,
            points: Seq::new(roster.len(), |seat: int| balance),
            books: Books::fresh(),
            inventories: Seq::new(
                roster.len(),
                |seat: int| Inventory { spades: 0, clubs: 0, diamonds: 0, hearts: 0 },
            ),
            pot: 0,
            phase: Phase::Ante,
        }
    }
}

/// The match maker. It alone changes the points, the holdings and the
/// books, one order after the other.
pub struct MatchMaker {
    pub round: u32,
    pub player_names: Vec<PlayerName>,
    pub goal_suit: Card,
    pub common_suit: Card,
    pub player_points: Vec<usize>,
    pub books: Books,
    pub player_inventories: Vec<Inventory>,
    pub pot: usize,
    pub phase: Phase,
    pub rng: StdRng,
}

impl View for MatchMaker {
    type V = Table;

    open spec fn view(&self) -> Table {
        Table {
            round: self.round,
            roster: self.player_names@,
            goal_suit: self.goal_suit,
            common_suit: self.common_suit,
            points: self.player_points@,
            books: self.books,
            inventories: self.player_inventories@,
            pot: self.pot,
            phase: self.phase,
        }
    }
}

impl MatchMaker {
    /// Whether `player_names` can sit down with `starting_balance` points
    /// each: there is a player, none is named twice, and their points can
    /// be counted.
    pub fn admits(starting_balance: usize, player_names: &Vec<PlayerName>) -> (ok: bool)
        ensures
            ok == Table::admits(player_names@, starting_balance),
    {
        if player_names.len() == 0 || !names_differ(player_names) {
            return false;
        }
        match starting_balance.checked_mul(player_names.len()) {
            Some(_) => true,
            None => false,
        }
    }

    /// A table for `player_names`, each with `starting_balance` points,
    /// before its first round. The match maker draws from `rng`.
    pub fn new(starting_balance: usize, player_names: Vec<PlayerName>, rng: StdRng) -> (maker:
        Self)
        requires
            Table::admits(player_names@, starting_balance),
        ensures
            maker@ == Table::opening(player_names@, starting_balance),
            maker@.wf(),
            maker.rng == rng,
    {
        let mut player_points: Vec<usize> = Vec::new();
        let mut player_inventories: Vec<Inventory> = Vec::new();
        let mut i: usize = 0;
        while i < player_names.len()
            invariant
                i <= player_names.len(),
                player_points@ == Seq::new(i as nat, |seat: int| starting_balance),
                player_inventories@ == Seq::new(
                    i as nat,
                    |seat: int| Inventory { spades: 0, clubs: 0, diamonds: 0, hearts: 0 },
                ),
            decreases player_names.len() - i,
        {
            player_points.push(starting_balance);
            player_inventories.push(Inventory::new());
            i = i + 1;
        }
        let maker = Self {
            round: 0,
            player_names,
            goal_suit: Card::Spade,
            common_suit: Card::Club,
            player_points,
            books: Books::new(),
            player_inventories,
            pot: 0,
            phase: Phase::Ante,
            rng,
        };
        proof {
            assert(maker@ =~= Table::opening(maker@.roster, starting_balance));
            lemma_points_even(maker@.points, starting_balance);
            assert forall|card: Card| #[trigger]
                cards_total(maker@.inventories, card) <= usize::MAX by {
                lemma_cards_none(maker@.inventories, card);
            }
        }
        maker
    }

    /// The seat of `name`, if it has one: the first under the name.
    pub fn find_seat(&self, name: PlayerName) -> (seat: Option<usize>)
        ensures
            seat is Some == self@.seats(name),
            seat matches Some(at) ==> at < self.player_names.len() && self.player_names[at as int]
                == name && forall|before: int|
                0 <= before < at ==> self.player_names[before] != name,
    {
        let mut at: usize = 0;
        while at < self.player_names.len()
            invariant
                at <= self.player_names.len(),
                forall|before: int| 0 <= before < at ==> self.player_names[before] != name,
            decreases self.player_names.len() - at,
        {
            if self.player_names[at] == name {
                return Some(at);
            }
            at = at + 1;
        }
        None
    }

    /// Whether somebody seated stands behind `quote`, or nobody at all.
    fn is_owned(&self, quote: &Quote) -> (ok: bool)
        ensures
            ok == (quote.player_name matches Some(name) ==> self@.seats(name)),
    {
        match quote.player_name {
            Some(name) => self.find_seat(name).is_some(),
            None => true,
        }
    }

    /// The points of all seats and the pot together, if the machine can
    /// count them.
    fn count_points(&self) -> (total: Option<usize>)
        ensures
            total is Some == (points_total(self@.points) + self.pot <= usize::MAX),
            total matches Some(sum) ==> sum == points_total(self@.points) + self.pot,
    {
        let mut sum: usize = self.pot;
        let mut seat: usize = 0;
        proof {
            assert(self@.points.take(0) =~= Seq::<usize>::empty());
        }
        while seat < self.player_points.len()
            invariant
                seat <= self.player_points.len(),
                sum == points_total(self@.points.take(seat as int)) + self.pot,
            decreases self.player_points.len() - seat,
        {
            proof {
                assert(self@.points.take(seat as int + 1).drop_last() =~= self@.points.take(
                    seat as int,
                ));
                lemma_points_prefix(self@.points, seat as int + 1);
            }
            sum = match sum.checked_add(self.player_points[seat]) {
                Some(more) => more,
                None => {
                    return None;
                },
            };
            seat = seat + 1;
        }
        proof {
            assert(self@.points.take(seat as int) =~= self@.points);
        }
        Some(sum)
    }

    /// Whether the machine can count the cards of `card` on the table.
    fn counts_cards(&self, card: Card) -> (ok: bool)
        ensures
            ok == (cards_total(self@.inventories, card) <= usize::MAX),
    {
        let mut sum: usize = 0;
        let mut seat: usize = 0;
        proof {
            assert(self@.inventories.take(0) =~= Seq::<Inventory>::empty());
        }
        while seat < self.player_inventories.len()
            invariant
                seat <= self.player_inventories.len(),
                sum == cards_total(self@.inventories.take(seat as int), card),
            decreases self.player_inventories.len() - seat,
        {
            proof {
                assert(self@.inventories.take(seat as int + 1).drop_last()
                    =~= self@.inventories.take(seat as int));
                lemma_cards_prefix(self@.inventories, card, seat as int + 1);
            }
            sum = match sum.checked_add(self.player_inventories[seat].get(&card)) {
                Some(more) => more,
                None => {
                    return false;
                },
            };
            seat = seat + 1;
        }
        proof {
            assert(self@.inventories.take(seat as int) =~= self@.inventories);
        }
        true
    }

    /// Whether the book of `card` is sound, can rest, and is quoted by
    /// seated players only.
    fn book_is_in_order(&self, card: Card) -> (ok: bool)
        ensures
            ok == {
                let book = self@.books.book(card);
                &&& book.sound()
                &&& book.at_rest()
                &&& book.bid.player_name matches Some(name) ==> self@.seats(name)
                &&& book.ask.player_name matches Some(name) ==> self@.seats(name)
            },
    {
        let book = self.books.get(card);
        book.is_at_rest() && self.is_owned(&book.bid) && self.is_owned(&book.ask)
    }

    /// Whether the table is well formed. A table that was made by `new` and
    /// changed by the match maker alone always is.
    pub fn is_well_formed(&self) -> (ok: bool)
        ensures
            ok == self@.wf(),
    {
        let seats = self.player_names.len();
        if seats == 0 || self.player_points.len() != seats || self.player_inventories.len()
            != seats {
            return false;
        }
        if !names_differ(&self.player_names) {
            return false;
        }
        let books = self.book_is_in_order(Card::Spade) && self.book_is_in_order(Card::Club)
            && self.book_is_in_order(Card::Diamond) && self.book_is_in_order(Card::Heart);
        let cards = self.counts_cards(Card::Spade) && self.counts_cards(Card::Club)
            && self.counts_cards(Card::Diamond) && self.counts_cards(Card::Heart);
        let points = self.count_points().is_some();
        proof {
            if books {
                assert forall|card: Card|
                    {
                        let book = #[trigger] self@.books.book(card);
                        &&& book.sound()
                        &&& book.at_rest()
                        &&& book.bid.player_name matches Some(name) ==> self@.seats(name)
                        &&& book.ask.player_name matches Some(name) ==> self@.seats(name)
                    } by {
                    assert(card == Card::Spade || card == Card::Club || card == Card::Diamond
                        || card == Card::Heart);
                }
            } else {
                assert(!(self@.books.at_rest() && self@.quotes_owned())) by {
                    if self@.books.at_rest() && self@.quotes_owned() {
                        let _ = self@.books.book(Card::Spade);
                        let _ = self@.books.book(Card::Club);
                        let _ = self@.books.book(Card::Diamond);
                        let _ = self@.books.book(Card::Heart);
                    }
                }
            }
            if cards {
                assert forall|card: Card| #[trigger]
                    cards_total(self@.inventories, card) <= usize::MAX by {
                    assert(card == Card::Spade || card == Card::Club || card == Card::Diamond
                        || card == Card::Heart);
                }
            }
        }
        books && cards && points
    }

    /// The seat of `name`.
    pub fn seat_of(&self, name: PlayerName) -> (seat: usize)
        requires
            self@.seats(name),
            self@.roster.no_duplicates(),
        ensures
            seat == self@.seat(name),
            seat < self.player_names.len(),
            self.player_names[seat as int] == name,
    {
        let mut seat: usize = 0;
        while self.player_names[seat] != name
            invariant
                seat < self.player_names.len(),
                exists|at: int| seat <= at < self.player_names.len() && self.player_names[at] == name,
            decreases self.player_names.len() - seat,
        {
            seat = seat + 1;
        }
        seat
    }
}

/// Whether no name occurs twice among `names`.
pub fn names_differ(names: &Vec<PlayerName>) -> (ok: bool)
    ensures
        ok == names@.no_duplicates(),
{
    let mut i: usize = 0;
    while i < names.len()
        invariant
            i <= names.len(),
            forall|a: int, b: int| 0 <= a < b < names.len() && a < i ==> names[a] != names[b],
        decreases names.len() - i,
    {
        let mut j: usize = i + 1;
        while j < names.len()
            invariant
                i < j <= names.len(),
                forall|b: int| i < b < j ==> names[i as int] != names[b],
            decreases names.len() - j,
        {
            if names[i] == names[j] {
                return false;
            }
            j = j + 1;
        }
        i = i + 1;
    }
    true
}

} // verus!
