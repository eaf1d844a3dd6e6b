use figgie_auto::match_maker::dealing::{
    build_deck, deal_hands, COMMON_CARDS, DECK_SIZE, PLAIN_CARDS, SHORT_CARDS,
};
use figgie_auto::{Card, Inventory, MatchMaker, PlayerName};
use rand::rngs::StdRng;
use rand::SeedableRng;

const SUITS: [Card; 4] = [Card::Spade, Card::Club, Card::Diamond, Card::Heart];

fn roster(players: usize) -> Vec<PlayerName> {
    let names = vec![
        PlayerName::Spread,
        PlayerName::Seller,
        PlayerName::Taker,
        PlayerName::Noisy,
        PlayerName::WildestDreams,
        PlayerName::PickOff,
        PlayerName::TiltInventory,
        PlayerName::PrayingMantis,
        PlayerName::TheHoarder,
    ];
    names[..players].to_vec()
}

fn run(card: Card, length: usize) -> Vec<Card> {
    vec![card; length]
}

fn held(hands: &[Inventory], card: Card) -> usize {
    hands.iter().map(|hand| hand.get(&card)).sum()
}

fn size(hand: &Inventory) -> usize {
    hand.spades + hand.clubs + hand.diamonds + hand.hearts
}

fn in_deck(deck: &[Card], card: Card) -> usize {
    deck.iter().filter(|dealt| **dealt == card).count()
}

#[test]
fn deck_sizes() {
    assert_eq!(DECK_SIZE, 40);
    assert_eq!(COMMON_CARDS, 12);
    assert_eq!(SHORT_CARDS, 8);
    assert_eq!(PLAIN_CARDS, 10);
    assert_eq!(COMMON_CARDS + SHORT_CARDS + 2 * PLAIN_CARDS, DECK_SIZE);
}

#[test]
fn deck_is_laid_out_by_suit() {
    let mut expected = run(Card::Spade, 12);
    expected.extend(run(Card::Diamond, 8));
    expected.extend(run(Card::Heart, 10));
    expected.extend(run(Card::Club, 10));
    assert_eq!(build_deck(Card::Spade, true), expected);

    let mut expected = run(Card::Heart, 12);
    expected.extend(run(Card::Spade, 10));
    expected.extend(run(Card::Club, 8));
    expected.extend(run(Card::Diamond, 10));
    assert_eq!(build_deck(Card::Heart, false), expected);
}

#[test]
fn every_deck_has_forty_cards_and_a_long_goal_suit() {
    for common in SUITS {
        for short_first in [true, false] {
            let deck = build_deck(common, short_first);
            assert_eq!(deck.len(), 40);
            assert_eq!(in_deck(&deck, common), 12);
            assert_eq!(in_deck(&deck, common.get_goal_suit()), 10);
            let (_, first, second) = common.get_other_cards();
            let (short, plain) = if short_first { (first, second) } else { (second, first) };
            assert_eq!(in_deck(&deck, short), 8);
            assert_eq!(in_deck(&deck, plain), 10);
        }
    }
}

#[test]
fn deal_serves_the_seats_from_the_top() {
    let deck = build_deck(Card::Spade, true);
    let hands = deal_hands(&deck, 4);
    assert_eq!(
        hands,
        vec![
            Inventory { spades: 10, clubs: 0, diamonds: 0, hearts: 0 },
            Inventory { spades: 2, clubs: 0, diamonds: 8, hearts: 0 },
            Inventory { spades: 0, clubs: 0, diamonds: 0, hearts: 10 },
            Inventory { spades: 0, clubs: 10, diamonds: 0, hearts: 0 },
        ]
    );
}

fn deal_hands_out_the_deck(players: usize) {
    for common in SUITS {
        for short_first in [true, false] {
            let deck = build_deck(common, short_first);
            let hands = deal_hands(&deck, players);
            assert_eq!(hands.len(), players);
            for hand in &hands {
                assert_eq!(size(hand), 40 / players);
            }
            for card in SUITS {
                assert_eq!(held(&hands, card), in_deck(&deck, card));
            }
        }
    }
}

#[test]
fn deal_to_two() {
    deal_hands_out_the_deck(2);
}

#[test]
fn deal_to_four() {
    deal_hands_out_the_deck(4);
}

#[test]
fn deal_to_five() {
    deal_hands_out_the_deck(5);
}

#[test]
fn deal_to_eight() {
    deal_hands_out_the_deck(8);
}

#[test]
fn deal_to_ten() {
    deal_hands_out_the_deck(10);
}

#[test]
fn deal_to_one_and_to_forty() {
    deal_hands_out_the_deck(1);
    deal_hands_out_the_deck(40);
}

#[test]
fn deal_that_does_not_divide_leaves_the_rest() {
    let deck = build_deck(Card::Club, false);
    let hands = deal_hands(&deck, 3);
    assert_eq!(hands.len(), 3);
    assert_eq!(
        hands,
        vec![
            Inventory { spades: 0, clubs: 12, diamonds: 1, hearts: 0 },
            Inventory { spades: 0, clubs: 0, diamonds: 9, hearts: 4 },
            Inventory { spades: 9, clubs: 0, diamonds: 0, hearts: 4 },
        ]
    );
    let many = deal_hands(&deck, 41);
    assert_eq!(many, vec![Inventory::new(); 41]);
    assert_eq!(deal_hands(&Vec::new(), 2), vec![Inventory::new(); 2]);
}

#[test]
fn deal_sets_hands_and_goal_suit() {
    let mut maker = MatchMaker::new(500, roster(4), StdRng::seed_from_u64(3));
    maker.set_common_suit(Card::Diamond);
    assert_eq!(maker.common_suit, Card::Diamond);
    assert_eq!(maker.goal_suit, Card::Heart);
    maker.goal_suit = Card::Spade;
    let deck = build_deck(Card::Diamond, true);
    maker.deal(&deck);
    assert_eq!(maker.goal_suit, Card::Heart);
    assert_eq!(maker.player_inventories, deal_hands(&deck, 4));
    assert_eq!(maker.player_points, vec![500; 4]);
}

#[test]
fn new_inventories_hand_out_a_whole_deck() {
    for (seed, players) in [(1u64, 2usize), (2, 4), (3, 5), (4, 8), (5, 5), (6, 4)] {
        for common in SUITS {
            let mut maker = MatchMaker::new(500, roster(players), StdRng::seed_from_u64(seed));
            maker.set_common_suit(common);
            maker.get_new_inventories();
            assert_eq!(maker.goal_suit, common.get_goal_suit());
            assert_eq!(maker.player_inventories.len(), players);
            for hand in &maker.player_inventories {
                assert_eq!(size(hand), 40 / players);
            }
            let (goal, first, second) = common.get_other_cards();
            assert_eq!(held(&maker.player_inventories, common), 12);
            assert_eq!(held(&maker.player_inventories, goal), 10);
            let rivals = (
                held(&maker.player_inventories, first),
                held(&maker.player_inventories, second),
            );
            assert!(rivals == (8, 10) || rivals == (10, 8));
        }
    }
}

#[test]
fn new_inventories_are_shuffled() {
    let mut shuffled = 0;
    for seed in 0..8u64 {
        let mut maker = MatchMaker::new(500, roster(4), StdRng::seed_from_u64(seed));
        maker.set_common_suit(Card::Spade);
        maker.get_new_inventories();
        let laid_out = [
            deal_hands(&build_deck(Card::Spade, true), 4),
            deal_hands(&build_deck(Card::Spade, false), 4),
        ];
        if !laid_out.contains(&maker.player_inventories) {
            shuffled += 1;
        }
    }
    assert_eq!(shuffled, 8);
}

#[test]
fn either_rival_can_be_short() {
    let mut first_short = 0;
    let mut second_short = 0;
    for seed in 0..64u64 {
        let mut maker = MatchMaker::new(500, roster(5), StdRng::seed_from_u64(seed));
        maker.set_common_suit(Card::Heart);
        maker.get_new_inventories();
        if held(&maker.player_inventories, Card::Spade) == 8 {
            first_short += 1;
        } else {
            assert_eq!(held(&maker.player_inventories, Card::Club), 8);
            second_short += 1;
        }
    }
    assert!(first_short > 0 && second_short > 0);
}

#[test]
fn common_suit_is_drawn_among_the_four() {
    let mut maker = MatchMaker::new(500, roster(4), StdRng::seed_from_u64(21));
    let mut seen = Vec::new();
    for _ in 0..200 {
        maker.pick_new_common_suit();
        assert_eq!(maker.goal_suit, maker.common_suit.get_goal_suit());
        if !seen.contains(&maker.common_suit) {
            seen.push(maker.common_suit);
        }
    }
    assert_eq!(seen.len(), 4);
    assert_eq!(maker.player_points, vec![500; 4]);
    assert_eq!(maker.round, 0);
}
