//! Sums over the seats of a table, and how they move when one seat changes.

use vstd::prelude::*;

use crate::models::inventory::Inventory;
use crate::models::Card;

verus! {

/// The points of all seats together.
pub open spec fn points_total(points: Seq<usize>) -> int
    decreases points.len(),
{
    if points.len() == 0 {
        0
    } else {
        points_total(points.drop_last()) + points.last()
    }
}

/// The cards of one suit that all seats hold together.
pub open spec fn cards_total(inventories: Seq<Inventory>, card: Card) -> int
    decreases inventories.len(),
{
    if inventories.len() == 0 {
        0
    } else {
        cards_total(inventories.drop_last(), card) + inventories.last().held(card)
    }
}

/// The points of all seats together are not negative.
pub proof fn lemma_points_nonnegative(points: Seq<usize>)
    ensures
        0 <= points_total(points),
    decreases points.len(),
{
    if points.len() > 0 {
        lemma_points_nonnegative(points.drop_last());
    }
}

/// No seat holds more points than all seats together.
pub proof fn lemma_points_share(points: Seq<usize>, seat: int)
    requires
        0 <= seat < points.len(),
    ensures
        points[seat] <= points_total(points),
    decreases points.len(),
{
    lemma_points_nonnegative(points.drop_last());
    if seat < points.len() - 1 {
        lemma_points_share(points.drop_last(), seat);
    }
}

/// A change of one seat's points moves the total by as much.
pub proof fn lemma_points_update(points: Seq<usize>, seat: int, value: usize)
    requires
        0 <= seat < points.len(),
    ensures
        points_total(points.update(seat, value)) == points_total(points) - points[seat] + value,
    decreases points.len(),
{
    let after = points.update(seat, value);
    if seat == points.len() - 1 {
        assert(after.drop_last() =~= points.drop_last());
    } else {
        assert(after.drop_last() =~= points.drop_last().update(seat, value));
        lemma_points_update(points.drop_last(), seat, value);
    }
}

/// Two seats hold no more points than all seats together.
pub proof fn lemma_points_pair(points: Seq<usize>, one: int, other: int)
    requires
        0 <= one < points.len(),
        0 <= other < points.len(),
        one != other,
    ensures
        points[one] + points[other] <= points_total(points),
{
    lemma_points_update(points, one, 0);
    lemma_points_share(points.update(one, 0), other);
}

/// The cards of a suit that all seats hold together are not negative.
pub proof fn lemma_cards_nonnegative(inventories: Seq<Inventory>, card: Card)
    ensures
        0 <= cards_total(inventories, card),
    decreases inventories.len(),
{
    if inventories.len() > 0 {
        lemma_cards_nonnegative(inventories.drop_last(), card);
    }
}

/// No seat holds more of a suit than all seats together.
pub proof fn lemma_cards_share(inventories: Seq<Inventory>, card: Card, seat: int)
    requires
        0 <= seat < inventories.len(),
    ensures
        inventories[seat].held(card) <= cards_total(inventories, card),
    decreases inventories.len(),
{
    lemma_cards_nonnegative(inventories.drop_last(), card);
    if seat < inventories.len() - 1 {
        lemma_cards_share(inventories.drop_last(), card, seat);
    }
}

/// A change of one seat's holding moves the total of each suit by as much.
pub proof fn lemma_cards_update(
    inventories: Seq<Inventory>,
    card: Card,
    seat: int,
    holding: Inventory,
)
    requires
        0 <= seat < inventories.len(),
    ensures
        cards_total(inventories.update(seat, holding), card) == cards_total(inventories, card)
            - inventories[seat].held(card) + holding.held(card),
    decreases inventories.len(),
{
    let after = inventories.update(seat, holding);
    if seat == inventories.len() - 1 {
        assert(after.drop_last() =~= inventories.drop_last());
    } else {
        assert(after.drop_last() =~= inventories.drop_last().update(seat, holding));
        lemma_cards_update(inventories.drop_last(), card, seat, holding);
    }
}

/// Two seats hold no more of a suit than all seats together.
pub proof fn lemma_cards_pair(inventories: Seq<Inventory>, card: Card, one: int, other: int)
    requires
        0 <= one < inventories.len(),
        0 <= other < inventories.len(),
        one != other,
    ensures
        inventories[one].held(card) + inventories[other].held(card) <= cards_total(
            inventories,
            card,
        ),
{
    let nothing = inventories[one].with(card, 0);
    lemma_cards_update(inventories, card, one, nothing);
    lemma_cards_share(inventories.update(one, nothing), card, other);
}

/// The first seats hold together no more points than all seats.
pub proof fn lemma_points_prefix(points: Seq<usize>, seats: int)
    requires
        0 <= seats <= points.len(),
    ensures
        points_total(points.take(seats)) <= points_total(points),
    decreases points.len() - seats,
{
    if seats < points.len() {
        lemma_points_prefix(points, seats + 1);
        assert(points.take(seats + 1).drop_last() =~= points.take(seats));
    } else {
        assert(points.take(seats) =~= points);
    }
}

/// The first seats hold together no more of a suit than all seats.
pub proof fn lemma_cards_prefix(inventories: Seq<Inventory>, card: Card, seats: int)
    requires
        0 <= seats <= inventories.len(),
    ensures
        cards_total(inventories.take(seats), card) <= cards_total(inventories, card),
    decreases inventories.len() - seats,
{
    if seats < inventories.len() {
        lemma_cards_prefix(inventories, card, seats + 1);
        assert(inventories.take(seats + 1).drop_last() =~= inventories.take(seats));
    } else {
        assert(inventories.take(seats) =~= inventories);
    }
}

/// Seats that all hold the same points hold that many times their number.
pub proof fn lemma_points_even(points: Seq<usize>, each: usize)
    requires
        forall|seat: int| 0 <= seat < points.len() ==> points[seat] == each,
    ensures
        points_total(points) == points.len() * each,
    decreases points.len(),
{
    if points.len() > 0 {
        lemma_points_even(points.drop_last(), each);
        assert(points.len() * each == (points.len() - 1) * each + each) by (nonlinear_arith);
    }
}

/// Seats that hold nothing of a suit hold nothing of it together.
pub proof fn lemma_cards_none(inventories: Seq<Inventory>, card: Card)
    requires
        forall|seat: int| 0 <= seat < inventories.len() ==> inventories[seat].held(card) == 0,
    ensures
        cards_total(inventories, card) == 0,
    decreases inventories.len(),
{
    if inventories.len() > 0 {
        lemma_cards_none(inventories.drop_last(), card);
    }
}

} // verus!
