//! The deck of a round and its deal.

use vstd::prelude::*;

use crate::match_maker::ledger::cards_total;
use crate::match_maker::{MatchMaker, Table};
use crate::models::inventory::{
    hand_of, lemma_hand_of, lemma_occurrences_bound, lemma_occurrences_concat, occurrences,
    Inventory,
};
use crate::models::Card;
use crate::random::{draw_between, flip, shuffle};

verus! {

/// The cards of a round's deck.
pub const DECK_SIZE: usize = 40;

/// The cards of the common suit in a deck.
pub const COMMON_CARDS: usize = 12;

/// The cards of the short suit in a deck.
pub const SHORT_CARDS: usize = 8;

/// The cards of each of the two other suits in a deck.
pub const PLAIN_CARDS: usize = 10;

/// `length` cards of one suit.
pub open spec fn run(card: Card, length: nat) -> Seq<Card> {
    Seq::new(length, |at: int| card)
}

/// The short suit of a deck: one of the two rivals of its common suit, the
/// first of them or the second. The partner of the common suit, the goal
/// suit, is never short.
pub open spec fn short_suit(common: Card, first: bool) -> Card {
    if first {
        common.rivals().0
    } else {
        common.rivals().1
    }
}

/// How many cards of `card` a deck holds.
pub open spec fn dealt(common: Card, short: Card, card: Card) -> nat {
    if card == common {
        COMMON_CARDS as nat
    } else if card == short {
        SHORT_CARDS as nat
    } else {
        PLAIN_CARDS as nat
    }
}

/// The deck as it is laid out before it is shuffled: the common suit, its
/// two rivals, then its partner.
pub open spec fn deck_of(common: Card, short_first: bool) -> Seq<Card> {
    let short = short_suit(common, short_first);
    run(common, COMMON_CARDS as nat) + run(
        common.rivals().0,
        dealt(common, short, common.rivals().0),
    ) + run(common.rivals().1, dealt(common, short, common.rivals().1)) + run(
        common.partner(),
        PLAIN_CARDS as nat,
    )
}

/// Whether `deck` holds the cards of a round's deck, in whatever order.
pub open spec fn is_shuffled(deck: Seq<Card>, common: Card, short_first: bool) -> bool {
    deck.to_multiset() == deck_of(common, short_first).to_multiset()
}

/// The cards that the player at `seat` gets of `deck` among `players`:
/// every player gets as many cards, as many as the deck allows, and the
/// seats are served from the top of the deck in their order.
pub open spec fn chunk(deck: Seq<Card>, players: int, seat: int) -> Seq<Card> {
    let size = deck.len() as int / players;
    deck.subrange(seat * size, seat * size + size)
}

/// The hands that `players` players get of `deck`.
pub open spec fn hands_of(deck: Seq<Card>, players: nat) -> Seq<Inventory> {
    Seq::new(players, |seat: int| hand_of(chunk(deck, players as int, seat)))
}

impl Table {
    /// The table after `deck` was dealt: the goal suit is the partner of the
    /// common suit, and each seat holds its part of the deck and nothing
    /// else.
    pub open spec fn after_deal(self, deck: Seq<Card>) -> Table {
        Table {
            goal_suit: self.common_suit.partner(),
            inventories: hands_of(deck, self.roster.len()),
            ..self
        }
    }
}

/// A run holds its length of its own suit and nothing of the others.
pub proof fn lemma_run(of: Card, length: nat, card: Card)
    ensures
        occurrences(run(of, length), card) == if card == of {
            length
        } else {
            0
        },
    decreases length,
{
    broadcast use vstd::seq_lib::group_to_multiset_ensures;

    if length == 0 {
        assert(run(of, length) =~= Seq::<Card>::empty());
    } else {
        lemma_run(of, (length - 1) as nat, card);
        assert(run(of, length) =~= run(of, (length - 1) as nat).push(of));
    }
}

/// A deck has forty cards: twelve of the common suit, eight of the short
/// suit, ten of each other.
pub proof fn lemma_deck(common: Card, short_first: bool, card: Card)
    ensures
        deck_of(common, short_first).len() == DECK_SIZE,
        occurrences(deck_of(common, short_first), card) == dealt(
            common,
            short_suit(common, short_first),
            card,
        ),
        short_suit(common, short_first) != common.partner(),
{
    let short = short_suit(common, short_first);
    let first = run(common, COMMON_CARDS as nat);
    let second = run(common.rivals().0, dealt(common, short, common.rivals().0));
    let third = run(common.rivals().1, dealt(common, short, common.rivals().1));
    let fourth = run(common.partner(), PLAIN_CARDS as nat);
    lemma_run(common, COMMON_CARDS as nat, card);
    lemma_run(common.rivals().0, dealt(common, short, common.rivals().0), card);
    lemma_run(common.rivals().1, dealt(common, short, common.rivals().1), card);
    lemma_run(common.partner(), PLAIN_CARDS as nat, card);
    lemma_occurrences_concat(first, second, card);
    lemma_occurrences_concat(first + second, third, card);
    lemma_occurrences_concat(first + second + third, fourth, card);
}

/// The part of the deck that a seat gets lies within the deck.
pub proof fn lemma_chunk_within(cards: int, players: int, seat: int)
    requires
        0 <= cards,
        0 <= seat < players,
    ensures
        0 <= cards / players,
        0 <= seat * (cards / players),
        seat * (cards / players) + cards / players <= cards,
{
    let size = cards / players;
    assert(0 <= size && size * players <= cards) by (nonlinear_arith)
        requires
            size == cards / players,
            players > 0,
            cards >= 0,
    ;
    assert(0 <= seat * size && seat * size + size <= players * size) by (nonlinear_arith)
        requires
            0 <= seat,
            seat + 1 <= players,
            size >= 0,
    ;
    assert(players * size == size * players) by (nonlinear_arith);
}

/// The first seats hold together what lies on top of the deck.
pub proof fn lemma_hands_from_the_top(deck: Seq<Card>, players: nat, seats: int, card: Card)
    requires
        deck.len() <= usize::MAX,
        0 <= seats <= players,
    ensures
        0 <= seats * (deck.len() as int / players as int) <= deck.len(),
        cards_total(hands_of(deck, players).take(seats), card) == occurrences(
            deck.take(seats * (deck.len() as int / players as int)),
            card,
        ),
    decreases seats,
{
    broadcast use vstd::seq_lib::group_to_multiset_ensures;

    let size = deck.len() as int / players as int;
    let hands = hands_of(deck, players);
    if seats == 0 {
        assert(0 * size == 0) by (nonlinear_arith);
        assert(deck.take(0) =~= Seq::<Card>::empty());
        assert(hands.take(0) =~= Seq::<Inventory>::empty());
    } else {
        let seat = seats - 1;
        lemma_chunk_within(deck.len() as int, players as int, seat);
        lemma_hands_from_the_top(deck, players, seat, card);
        assert(seats * size == seat * size + size) by (nonlinear_arith)
            requires
                seats == seat + 1,
        ;
        let part = chunk(deck, players as int, seat);
        assert(hands.take(seats).drop_last() =~= hands.take(seat));
        assert(hands.take(seats).last() == hand_of(part));
        assert(deck.take(seats * size) =~= deck.take(seat * size) + part);
        lemma_occurrences_concat(deck.take(seat * size), part, card);
        lemma_hand_of(part, card);
    }
}

/// Where the players' number divides the deck, the deal hands out the whole
/// deck: the seats hold together, of each suit, what the deck holds.
pub proof fn lemma_deal_hands_out_the_deck(deck: Seq<Card>, players: nat, card: Card)
    requires
        deck.len() <= usize::MAX,
        0 < players,
        deck.len() % players == 0,
    ensures
        cards_total(hands_of(deck, players), card) == occurrences(deck, card),
{
    let size = deck.len() as int / players as int;
    lemma_hands_from_the_top(deck, players, players as int, card);
    assert(players * size == deck.len()) by (nonlinear_arith)
        requires
            size == deck.len() as int / players as int,
            deck.len() as int % players as int == 0,
            players > 0,
    ;
    assert(deck.take(deck.len() as int) =~= deck);
    assert(hands_of(deck, players).take(players as int) =~= hands_of(deck, players));
}

/// No deal hands out more than the deck: the seats hold together, of each
/// suit, no more cards than the deck has.
pub proof fn lemma_deal_is_bounded(deck: Seq<Card>, players: nat, card: Card)
    requires
        deck.len() <= usize::MAX,
    ensures
        cards_total(hands_of(deck, players), card) <= deck.len(),
{
    let size = deck.len() as int / players as int;
    lemma_hands_from_the_top(deck, players, players as int, card);
    lemma_occurrences_bound(deck.take(players * size), card);
    assert(hands_of(deck, players).take(players as int) =~= hands_of(deck, players));
}

/// After the deal of a round's deck, shuffled, to players whose number
/// divides forty, the seats hold together twelve cards of the common suit,
/// eight of the short suit and ten of each other: forty cards, and ten of
/// them of the goal suit.
pub proof fn lemma_deal_of_a_round(
    table: Table,
    deck: Seq<Card>,
    short_first: bool,
    card: Card,
)
    requires
        0 < table.roster.len(),
        DECK_SIZE as nat % table.roster.len() == 0,
        is_shuffled(deck, table.common_suit, short_first),
    ensures
        deck.len() == DECK_SIZE,
        cards_total(table.after_deal(deck).inventories, card) == dealt(
            table.common_suit,
            short_suit(table.common_suit, short_first),
            card,
        ),
        cards_total(table.after_deal(deck).inventories, table.after_deal(deck).goal_suit)
            == PLAIN_CARDS,
{
    broadcast use vstd::seq_lib::group_to_multiset_ensures;

    let laid = deck_of(table.common_suit, short_first);
    lemma_deck(table.common_suit, short_first, card);
    lemma_deck(table.common_suit, short_first, table.common_suit.partner());
    assert(deck.len() == deck.to_multiset().len());
    assert(laid.len() == laid.to_multiset().len());
    lemma_deal_hands_out_the_deck(deck, table.roster.len(), card);
    lemma_deal_hands_out_the_deck(deck, table.roster.len(), table.common_suit.partner());
}

/// Appends `length` cards of `card` to `deck`.
fn push_run(deck: &mut Vec<Card>, card: Card, length: usize)
    ensures
        final(deck)@ == old(deck)@ + run(card, length as nat),
{
    let mut pushed: usize = 0;
    proof {
        assert(deck@ =~= old(deck)@ + run(card, 0));
    }
    while pushed < length
        invariant
            pushed <= length,
            deck@ == old(deck)@ + run(card, pushed as nat),
        decreases length - pushed,
    {
        deck.push(card);
        pushed = pushed + 1;
        proof {
            assert(deck@ =~= old(deck)@ + run(card, pushed as nat));
        }
    }
}

/// Lays out the deck of a round whose common suit is `common`. The short
/// suit is the first rival of the common suit or the second.
pub fn build_deck(common: Card, short_first: bool) -> (deck: Vec<Card>)
    ensures
        deck@ == deck_of(common, short_first),
{
    let (partner, first, second) = common.get_other_cards();
    let mut deck: Vec<Card> = Vec::new();
    push_run(&mut deck, common, COMMON_CARDS);
    push_run(&mut deck, first, if short_first { SHORT_CARDS } else { PLAIN_CARDS });
    push_run(&mut deck, second, if short_first { PLAIN_CARDS } else { SHORT_CARDS });
    push_run(&mut deck, partner, PLAIN_CARDS);
    proof {
        crate::models::lemma_suits_around(common, common);
        assert(deck@ =~= deck_of(common, short_first));
    }
    deck
}

/// Deals `deck` to `players` players: the same number of cards to each, as
/// many as the deck allows, seat after seat from the top of the deck.
pub fn deal_hands(deck: &Vec<Card>, players: usize) -> (hands: Vec<Inventory>)
    requires
        players > 0,
    ensures
        hands@ == hands_of(deck@, players as nat),
{
    let size = deck.len() / players;
    let mut hands: Vec<Inventory> = Vec::new();
    let mut seat: usize = 0;
    while seat < players
        invariant
            seat <= players,
            size == deck.len() as int / players as int,
            hands@ == hands_of(deck@, players as nat).take(seat as int),
        decreases players - seat,
    {
        proof {
            lemma_chunk_within(deck.len() as int, players as int, seat as int);
        }
        let from = seat * size;
        let mut cards: Vec<Card> = Vec::new();
        let mut at: usize = from;
        proof {
            assert(cards@ =~= deck@.subrange(from as int, at as int));
        }
        while at < from + size
            invariant
                from <= at <= from + size <= deck.len(),
                cards@ == deck@.subrange(from as int, at as int),
            decreases from + size - at,
        {
            cards.push(deck[at]);
            at = at + 1;
            proof {
                assert(cards@ =~= deck@.subrange(from as int, at as int));
            }
        }
        let mut hand = Inventory::new();
        proof {
            lemma_hand_of(cards@, Card::Spade);
            lemma_hand_of(cards@, Card::Club);
            lemma_hand_of(cards@, Card::Diamond);
            lemma_hand_of(cards@, Card::Heart);
        }
        let ghost part = cards@;
        hand.count(cards);
        proof {
            assert(hand.held(Card::Spade) == occurrences(part, Card::Spade));
            assert(hand.held(Card::Club) == occurrences(part, Card::Club));
            assert(hand.held(Card::Diamond) == occurrences(part, Card::Diamond));
            assert(hand.held(Card::Heart) == occurrences(part, Card::Heart));
            assert(hand == hand_of(part));
            assert(part == chunk(deck@, players as int, seat as int));
        }
        hands.push(hand);
        seat = seat + 1;
        proof {
            assert(hands@ =~= hands_of(deck@, players as nat).take(seat as int));
        }
    }
    proof {
        assert(hands@ =~= hands_of(deck@, players as nat));
    }
    hands
}

impl MatchMaker {
    /// Draws the common suit of the next round, each of the four suits as
    /// likely as the others, and with it the goal suit, its partner.
    pub fn pick_new_common_suit(&mut self)
        ensures
            final(self)@.goal_suit == final(self)@.common_suit.partner(),
            final(self)@ == (Table {
                common_suit: final(self)@.common_suit,
                goal_suit: final(self)@.goal_suit,
                ..old(self)@
            }),
    {
        let pick = draw_between(&mut self.rng, 0, 3);
        self.set_common_suit(Card::from_index(pick as usize));
    }

    /// Makes `common` the common suit of the next round, and its partner
    /// the goal suit.
    pub fn set_common_suit(&mut self, common: Card)
        ensures
            final(self)@ == (Table {
                common_suit: common,
                goal_suit: common.partner(),
                ..old(self)@
            }),
            final(self).rng == old(self).rng,
    {
        self.common_suit = common;
        self.goal_suit = common.get_goal_suit();
    }

    /// Deals `deck`: every seat gets its part of it in place of what it
    /// held.
    pub fn deal(&mut self, deck: &Vec<Card>)
        requires
            old(self)@.wf(),
        ensures
            final(self)@ == old(self)@.after_deal(deck@),
            final(self)@.wf(),
            final(self).rng == old(self).rng,
    {
        self.goal_suit = self.common_suit.get_goal_suit();
        self.player_inventories = deal_hands(deck, self.player_names.len());
        proof {
            assert(deck.len() <= usize::MAX);
            assert forall|card: Card| #[trigger]
                cards_total(self@.inventories, card) <= usize::MAX by {
                lemma_deal_is_bounded(deck@, self@.roster.len(), card);
            }
        }
    }

    /// Deals a new round: lays out the deck for the common suit, with one
    /// of its two rivals drawn to be the short suit, shuffles it, and deals
    /// it.
    pub fn get_new_inventories(&mut self)
        requires
            old(self)@.wf(),
        ensures
            exists|short_first: bool, deck: Seq<Card>|
                is_shuffled(deck, old(self)@.common_suit, short_first) && final(self)@ == old(
                    self,
                )@.after_deal(deck),
            final(self)@.wf(),
    {
        let short_first = flip(&mut self.rng);
        let mut deck = build_deck(self.common_suit, short_first);
        shuffle(&mut deck, &mut self.rng);
        self.deal(&deck);
        proof {
            assert(is_shuffled(deck@, old(self)@.common_suit, short_first));
        }
    }
}

} // verus!
