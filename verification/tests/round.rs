use figgie_auto::match_maker::round::{
    BOOK_PAUSE_SECONDS, COOLDOWN_SECONDS, DEAL_PAUSE_SECONDS, ROUND_SECONDS,
};
use figgie_auto::{
    Action, Books, Card, Direction, Event, Inventory, MatchMaker, Order, Phase, PlayerName, Quote,
};
use rand::rngs::StdRng;
use rand::SeedableRng;

fn table() -> MatchMaker {
    MatchMaker::new(
        500,
        vec![
            PlayerName::TiltInventory,
            PlayerName::Spread,
            PlayerName::Seller,
            PlayerName::Noisy,
            PlayerName::PickOff,
        ],
        StdRng::seed_from_u64(99),
    )
}

#[test]
fn round_times() {
    assert_eq!(ROUND_SECONDS, 240);
    assert_eq!(DEAL_PAUSE_SECONDS, 5);
    assert_eq!(BOOK_PAUSE_SECONDS, 2);
    assert_eq!(COOLDOWN_SECONDS, 30);
}

#[test]
fn hands_pair_names_and_holdings() {
    let mut maker = table();
    maker.player_inventories[2] = Inventory { spades: 4, clubs: 3, diamonds: 2, hearts: 1 };
    let hands = maker.hands();
    assert_eq!(hands.len(), 5);
    assert_eq!(hands[0], (PlayerName::TiltInventory, Inventory::new()));
    assert_eq!(
        hands[2],
        (PlayerName::Seller, Inventory { spades: 4, clubs: 3, diamonds: 2, hearts: 1 })
    );
    assert_eq!(hands[4], (PlayerName::PickOff, Inventory::new()));
}

#[test]
fn a_round_runs_through_its_phases() {
    let mut maker = table();
    assert_eq!(maker.phase, Phase::Ante);

    assert!(maker.start().is_empty());
    assert_eq!(maker.phase, Phase::Setup);
    assert_eq!(maker.player_points, vec![460; 5]);
    assert_eq!(maker.pot, 200);

    assert!(maker.start().is_empty());
    assert_eq!(maker.phase, Phase::Deal);
    assert_eq!(maker.goal_suit, maker.common_suit.get_goal_suit());

    assert!(maker.start().is_empty());
    assert_eq!(maker.phase, Phase::Arm);
    let held: usize = maker
        .player_inventories
        .iter()
        .map(|hand| hand.spades + hand.clubs + hand.diamonds + hand.hearts)
        .sum();
    assert_eq!(held, 40);
    assert!(maker.player_inventories.iter().all(|hand| {
        hand.spades + hand.clubs + hand.diamonds + hand.hearts == 8
    }));

    maker.books.spades.bid = Quote { price: 3, player_name: Some(PlayerName::Noisy) };
    maker.books.spades.last_trade = Some(4);
    let actions = maker.start();
    assert_eq!(maker.phase, Phase::Trading);
    let mut open = Books::new();
    open.spades.last_trade = Some(4);
    assert_eq!(maker.books, open);
    assert_eq!(
        actions,
        vec![
            Action::Pause(5),
            Action::Broadcast(Event::DealCards(maker.hands())),
            Action::Pause(2),
            Action::Broadcast(Event::Update(open.snapshot(None))),
            Action::AcceptOrders(240),
        ]
    );

    let seller = maker
        .player_names
        .iter()
        .zip(maker.player_inventories.iter())
        .find(|(_, hand)| hand.get(&maker.goal_suit) > 0)
        .map(|(name, _)| *name)
        .unwrap();
    let rested = maker.process_order(Order {
        player_name: seller,
        price: 6,
        direction: Direction::Sell,
        card: maker.goal_suit,
    });
    assert!(rested.is_ok());

    assert_eq!(maker.start(), vec![Action::Broadcast(Event::EndRound)]);
    assert_eq!(maker.phase, Phase::Settlement);
    assert_eq!(maker.round, 0);

    let goal_cards: Vec<usize> =
        maker.player_inventories.iter().map(|hand| hand.get(&maker.goal_suit)).collect();
    assert_eq!(goal_cards.iter().sum::<usize>(), 10);
    let most = *goal_cards.iter().max().unwrap();
    let winners = goal_cards.iter().filter(|cards| **cards == most).count();
    assert!(maker.start().is_empty());
    assert_eq!(maker.phase, Phase::Cooldown);
    assert_eq!(maker.round, 0);
    assert_eq!(maker.pot, 0);
    for (seat, cards) in goal_cards.iter().enumerate() {
        let bonus = if *cards == most { 100 / winners } else { 0 };
        assert_eq!(maker.player_points[seat], 460 + 10 * cards + bonus);
    }

    assert_eq!(maker.start(), vec![Action::Pause(30)]);
    assert_eq!(maker.phase, Phase::Ante);
    assert_eq!(maker.round, 1);

    maker.start();
    assert_eq!(maker.pot, 200);
}

#[test]
fn round_count_stops_at_its_end() {
    let mut maker = table();
    maker.phase = Phase::Cooldown;
    maker.round = u32::MAX - 1;
    maker.start();
    assert_eq!(maker.round, u32::MAX);
    maker.phase = Phase::Cooldown;
    maker.start();
    assert_eq!(maker.round, u32::MAX);
    assert_eq!(maker.phase, Phase::Ante);
}

#[test]
fn settlement_phase_with_a_short_pot_pays_nobody() {
    let mut maker = table();
    maker.set_common_suit(Card::Spade);
    maker.player_inventories[0].clubs = 3;
    maker.pot = 29;
    maker.phase = Phase::Settlement;
    assert!(maker.start().is_empty());
    assert_eq!(maker.player_points, vec![500; 5]);
    assert_eq!(maker.pot, 29);
    assert_eq!(maker.phase, Phase::Cooldown);
}
