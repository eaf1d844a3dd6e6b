use figgie_auto::match_maker::settlement::{ANTE_POOL, GOAL_CARD_VALUE};
use figgie_auto::{Card, Inventory, MatchMaker, PlayerName, Settlement};
use rand::rngs::StdRng;
use rand::SeedableRng;

fn roster(players: usize) -> Vec<PlayerName> {
    let names = vec![
        PlayerName::Spread,
        PlayerName::Seller,
        PlayerName::Taker,
        PlayerName::Noisy,
        PlayerName::WildestDreams,
        PlayerName::PickOff,
        PlayerName::TiltInventory,
        PlayerName::PrayingMantis,
        PlayerName::TheHoarder,
    ];
    names[..players].to_vec()
}

fn table(players: usize) -> MatchMaker {
    MatchMaker::new(500, roster(players), StdRng::seed_from_u64(5))
}

fn with_goal_cards(goal_cards: &[usize], pot: usize) -> MatchMaker {
    let mut maker = table(goal_cards.len());
    maker.set_common_suit(Card::Heart);
    for (seat, cards) in goal_cards.iter().enumerate() {
        maker.player_inventories[seat] =
            Inventory { spades: 1, clubs: 2, diamonds: *cards, hearts: 3 };
    }
    maker.pot = pot;
    maker
}

#[test]
fn pool_and_card_value() {
    assert_eq!(ANTE_POOL, 200);
    assert_eq!(GOAL_CARD_VALUE, 10);
}

#[test]
fn antes_of_five() {
    let mut maker = table(5);
    assert_eq!(maker.collect_antes(), 5);
    assert_eq!(maker.player_points, vec![460; 5]);
    assert_eq!(maker.pot, 200);
}

#[test]
fn antes_by_roster() {
    for (players, ante) in [(1usize, 200usize), (2, 100), (3, 66), (4, 50), (8, 25), (9, 22)] {
        let mut maker = table(players);
        assert_eq!(maker.collect_antes(), players);
        assert_eq!(maker.player_points, vec![500 - ante; players]);
        assert_eq!(maker.pot, players * ante);
    }
}

#[test]
fn antes_add_to_the_pot() {
    let mut maker = table(4);
    maker.pot = 7;
    maker.collect_antes();
    assert_eq!(maker.pot, 207);
    assert_eq!(maker.player_points.iter().sum::<usize>() + maker.pot, 2007);
}

#[test]
fn antes_end_at_the_first_who_cannot_pay() {
    let mut maker = table(4);
    maker.player_points = vec![500, 50, 49, 500];
    assert_eq!(maker.collect_antes(), 2);
    assert_eq!(maker.player_points, vec![450, 0, 49, 500]);
    assert_eq!(maker.pot, 100);

    let mut maker = table(3);
    maker.player_points = vec![65, 500, 500];
    assert_eq!(maker.collect_antes(), 0);
    assert_eq!(maker.player_points, vec![65, 500, 500]);
    assert_eq!(maker.pot, 0);
}

#[test]
fn settlement_tie() {
    let mut maker = with_goal_cards(&[3, 3, 2, 2], 200);
    let settlement = maker.settle();
    assert_eq!(settlement, Some(Settlement { most: 3, winners: 2, bonus: 50 }));
    assert_eq!(maker.player_points, vec![580, 580, 520, 520]);
    assert_eq!(maker.pot, 0);
}

#[test]
fn settlement_with_one_winner() {
    let mut maker = with_goal_cards(&[0, 5, 3, 2], 200);
    let settlement = maker.settle();
    assert_eq!(settlement, Some(Settlement { most: 5, winners: 1, bonus: 100 }));
    assert_eq!(maker.player_points, vec![500, 650, 530, 520]);
    assert_eq!(maker.pot, 0);
}

#[test]
fn settlement_loses_what_cannot_be_shared() {
    let mut maker = with_goal_cards(&[3, 3, 3, 1], 200);
    let settlement = maker.settle();
    assert_eq!(settlement, Some(Settlement { most: 3, winners: 3, bonus: 33 }));
    assert_eq!(maker.player_points, vec![563, 563, 563, 510]);
    assert_eq!(maker.pot, 0);
    assert_eq!(maker.player_points.iter().sum::<usize>(), 2000 + 199);
}

#[test]
fn settlement_without_goal_cards_shares_among_all() {
    let mut maker = with_goal_cards(&[0, 0, 0, 0], 200);
    let settlement = maker.settle();
    assert_eq!(settlement, Some(Settlement { most: 0, winners: 4, bonus: 50 }));
    assert_eq!(maker.player_points, vec![550; 4]);
}

#[test]
fn settlement_of_a_pot_that_just_covers() {
    let mut maker = with_goal_cards(&[4, 6], 100);
    let settlement = maker.settle();
    assert_eq!(settlement, Some(Settlement { most: 6, winners: 1, bonus: 0 }));
    assert_eq!(maker.player_points, vec![540, 560]);
    assert_eq!(maker.pot, 0);
}

#[test]
fn settlement_of_a_pot_that_does_not_cover_pays_nobody() {
    let mut maker = with_goal_cards(&[4, 6], 99);
    assert_eq!(maker.settle(), None);
    assert_eq!(maker.player_points, vec![500, 500]);
    assert_eq!(maker.pot, 99);
    assert_eq!(maker.player_inventories[1].diamonds, 6);
}

#[test]
fn settlement_leaves_the_cards() {
    let mut maker = with_goal_cards(&[3, 3, 2, 2], 200);
    let before = maker.player_inventories.clone();
    maker.settle();
    assert_eq!(maker.player_inventories, before);
    assert_eq!(maker.goal_suit, Card::Diamond);
}

#[test]
fn ante_and_payout_round_trip() {
    let mut maker = with_goal_cards(&[3, 3, 2, 2], 0);
    let before: usize = maker.player_points.iter().sum();
    assert_eq!(maker.collect_antes(), 4);
    assert_eq!(maker.pot, 200);
    assert_eq!(maker.player_points.iter().sum::<usize>() + maker.pot, before);
    maker.settle();
    assert_eq!(maker.player_points.iter().sum::<usize>(), before);
    assert_eq!(maker.player_points, vec![530, 530, 470, 470]);

    let mut even = with_goal_cards(&[2, 2, 2, 2, 2], 0);
    even.collect_antes();
    even.settle();
    assert_eq!(even.player_points, vec![500; 5]);
}
