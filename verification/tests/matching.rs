use figgie_auto::{
    Book, Books, Card, Direction, Inventory, MatchMaker, Order, PlayerName, Quote, Rejection,
    Trade, Update,
};
use rand::rngs::StdRng;
use rand::SeedableRng;

const FIRST: PlayerName = PlayerName::Seller;
const SECOND: PlayerName = PlayerName::Taker;
const THIRD: PlayerName = PlayerName::Spread;

fn table(names: Vec<PlayerName>) -> MatchMaker {
    assert!(MatchMaker::admits(500, &names));
    let mut maker = MatchMaker::new(500, names, StdRng::seed_from_u64(11));
    for seat in 0..maker.player_inventories.len() {
        maker.player_inventories[seat] = Inventory { spades: 2, clubs: 2, diamonds: 2, hearts: 2 };
    }
    maker
}

fn order(player_name: PlayerName, direction: Direction, card: Card, price: usize) -> Order {
    Order { player_name, price, direction, card }
}

fn quote(price: usize, owner: PlayerName) -> Quote {
    Quote { price, player_name: Some(owner) }
}

fn no_bid() -> Quote {
    Quote { price: 0, player_name: None }
}

fn no_ask() -> Quote {
    Quote { price: 99, player_name: None }
}

fn total_points(maker: &MatchMaker) -> usize {
    maker.player_points.iter().sum::<usize>() + maker.pot
}

fn total_cards(maker: &MatchMaker, card: Card) -> usize {
    maker.player_inventories.iter().map(|held| held.get(&card)).sum()
}

fn assert_all_clear(books: &Books) {
    for card in [Card::Spade, Card::Club, Card::Diamond, Card::Heart] {
        assert_eq!(books.get(card).bid, no_bid());
        assert_eq!(books.get(card).ask, no_ask());
    }
}

#[test]
fn new_table_is_the_opening() {
    let maker = MatchMaker::new(500, vec![FIRST, SECOND, THIRD], StdRng::seed_from_u64(1));
    assert_eq!(maker.round, 0);
    assert_eq!(maker.player_names, vec![FIRST, SECOND, THIRD]);
    assert_eq!(maker.player_points, vec![500, 500, 500]);
    assert_eq!(maker.player_inventories, vec![Inventory::new(); 3]);
    assert_eq!(maker.books, Books::new());
    assert_eq!(maker.pot, 0);
    assert_eq!(maker.goal_suit, Card::Spade);
    assert_eq!(maker.common_suit, Card::Club);
    assert_eq!(maker.phase, figgie_auto::Phase::Ante);
}

#[test]
fn roster_must_be_named_once_each() {
    assert!(MatchMaker::admits(500, &vec![FIRST, SECOND, THIRD]));
    assert!(MatchMaker::admits(0, &vec![FIRST]));
    assert!(!MatchMaker::admits(500, &Vec::new()));
    assert!(!MatchMaker::admits(500, &vec![FIRST, SECOND, FIRST]));
    assert!(!MatchMaker::admits(500, &vec![SECOND, SECOND]));
    assert!(!MatchMaker::admits(usize::MAX, &vec![FIRST, SECOND]));
    assert!(MatchMaker::admits(usize::MAX / 2, &vec![FIRST, SECOND]));
}

#[test]
fn seat_of_finds_the_player() {
    let maker = table(vec![FIRST, SECOND, THIRD]);
    assert_eq!(maker.seat_of(FIRST), 0);
    assert_eq!(maker.seat_of(SECOND), 1);
    assert_eq!(maker.seat_of(THIRD), 2);
}

#[test]
fn exact_cross() {
    let mut maker = table(vec![FIRST, SECOND]);
    maker.player_inventories[1].spades = 0;
    let rested = maker.process_order(order(FIRST, Direction::Sell, Card::Spade, 10));
    let mut expected = Books::new();
    expected.spades.ask = quote(10, FIRST);
    assert_eq!(rested, Ok(expected.snapshot(None)));
    assert_eq!(maker.books.spades.ask, quote(10, FIRST));

    let crossed = maker.process_order(order(SECOND, Direction::Buy, Card::Spade, 10));
    let trade = Trade { card: Card::Spade, price: 10, buyer: SECOND, seller: FIRST };
    let mut after = Books::new();
    after.spades.last_trade = Some(10);
    assert_eq!(crossed, Ok(after.snapshot(Some(trade))));
    assert_eq!(maker.player_points, vec![510, 490]);
    assert_eq!(maker.player_inventories[0].spades, 1);
    assert_eq!(maker.player_inventories[1].spades, 1);
    assert_eq!(maker.books, after);
    assert_all_clear(&maker.books);
}

#[test]
fn improve_do_not_cross() {
    let mut maker = table(vec![FIRST, SECOND]);
    let first = maker.process_order(order(FIRST, Direction::Buy, Card::Club, 3)).unwrap();
    assert_eq!(maker.books.clubs.bid, quote(3, FIRST));
    assert_eq!(first.trade, None);
    assert_eq!(first.clubs.bid, quote(3, FIRST));

    let tie = maker.process_order(order(SECOND, Direction::Buy, Card::Club, 3)).unwrap();
    assert_eq!(maker.books.clubs.bid, quote(3, FIRST));
    assert_eq!(tie, first);

    let better = maker.process_order(order(SECOND, Direction::Buy, Card::Club, 4)).unwrap();
    assert_eq!(maker.books.clubs.bid, quote(4, SECOND));
    assert_eq!(better.trade, None);
    assert_eq!(maker.books.clubs.ask, no_ask());
    assert_eq!(maker.player_points, vec![500, 500]);
}

#[test]
fn sell_without_inventory() {
    let mut maker = table(vec![FIRST, SECOND]);
    maker.player_inventories[0].hearts = 0;
    let books = maker.books;
    let outcome = maker.process_order(order(FIRST, Direction::Sell, Card::Heart, 5));
    assert_eq!(outcome, Err(Rejection::NoInventory));
    assert_eq!(maker.books, books);
    assert_eq!(maker.player_points, vec![500, 500]);
    assert_eq!(maker.player_inventories[0], Inventory { spades: 2, clubs: 2, diamonds: 2, hearts: 0 });
}

#[test]
fn global_reset() {
    let mut maker = table(vec![FIRST, SECOND, THIRD]);
    maker.process_order(order(FIRST, Direction::Sell, Card::Spade, 5)).unwrap();
    maker.process_order(order(THIRD, Direction::Sell, Card::Heart, 6)).unwrap();
    maker.process_order(order(THIRD, Direction::Buy, Card::Diamond, 2)).unwrap();
    assert_eq!(maker.books.spades.ask, quote(5, FIRST));
    assert_eq!(maker.books.hearts.ask, quote(6, THIRD));
    assert_eq!(maker.books.diamonds.bid, quote(2, THIRD));

    let update = maker.process_order(order(SECOND, Direction::Buy, Card::Spade, 5)).unwrap();
    assert_eq!(
        update.trade,
        Some(Trade { card: Card::Spade, price: 5, buyer: SECOND, seller: FIRST })
    );
    assert_eq!(maker.books.hearts.ask, no_ask());
    assert_all_clear(&maker.books);
    assert_eq!(maker.books.spades.last_trade, Some(5));
    assert_eq!(maker.books.hearts.last_trade, None);
    assert_eq!(maker.books.diamonds.last_trade, None);
    assert_eq!(maker.books.clubs.last_trade, None);
}

#[test]
fn last_trades_of_other_books_stay() {
    let mut maker = table(vec![FIRST, SECOND]);
    maker.books.hearts.last_trade = Some(7);
    maker.books.spades.last_trade = Some(3);
    maker.process_order(order(FIRST, Direction::Buy, Card::Spade, 4)).unwrap();
    let update = maker.process_order(order(SECOND, Direction::Sell, Card::Spade, 1)).unwrap();
    assert_eq!(
        update.trade,
        Some(Trade { card: Card::Spade, price: 4, buyer: FIRST, seller: SECOND })
    );
    assert_eq!(maker.books.spades.last_trade, Some(4));
    assert_eq!(maker.books.hearts.last_trade, Some(7));
    assert_eq!(update.hearts.last_trade, Some(7));
}

#[test]
fn drain() {
    let mut maker = table(vec![FIRST, SECOND, THIRD]);
    maker.process_order(order(FIRST, Direction::Sell, Card::Spade, 5)).unwrap();
    let updates = maker.process_queue(vec![
        order(SECOND, Direction::Buy, Card::Spade, 5),
        order(THIRD, Direction::Buy, Card::Spade, 5),
    ]);
    assert_eq!(updates.len(), 1);
    assert_eq!(
        updates[0].trade,
        Some(Trade { card: Card::Spade, price: 5, buyer: SECOND, seller: FIRST })
    );
    assert_eq!(maker.player_points, vec![505, 495, 500]);
    assert_eq!(maker.player_inventories[0].spades, 1);
    assert_eq!(maker.player_inventories[1].spades, 3);
    assert_eq!(maker.player_inventories[2].spades, 2);
    assert_all_clear(&maker.books);
}

#[test]
fn queue_without_a_trade_is_worked_off() {
    let mut maker = table(vec![FIRST, SECOND, THIRD]);
    let updates = maker.process_queue(vec![
        order(FIRST, Direction::Buy, Card::Club, 3),
        order(SECOND, Direction::Buy, Card::Club, 0),
        order(SECOND, Direction::Sell, Card::Club, 9),
        order(THIRD, Direction::Sell, Card::Club, 8),
    ]);
    assert_eq!(updates.len(), 3);
    assert!(updates.iter().all(|update| update.trade.is_none()));
    assert_eq!(updates[0].clubs.bid, quote(3, FIRST));
    assert_eq!(updates[0].clubs.ask, no_ask());
    assert_eq!(updates[1].clubs.ask, quote(9, SECOND));
    assert_eq!(updates[2].clubs.ask, quote(8, THIRD));
    assert_eq!(maker.books.clubs, Book { bid: quote(3, FIRST), ask: quote(8, THIRD), last_trade: None });
    assert!(maker.process_queue(Vec::new()).is_empty());
}

#[test]
fn queue_behind_a_trade_is_not_read() {
    let mut maker = table(vec![FIRST, SECOND, THIRD]);
    let queue = vec![
        order(FIRST, Direction::Sell, Card::Heart, 6),
        order(SECOND, Direction::Buy, Card::Heart, 7),
        order(THIRD, Direction::Buy, Card::Heart, 9),
        order(THIRD, Direction::Sell, Card::Club, 2),
    ];
    let updates = maker.process_queue(queue);
    assert_eq!(updates.len(), 2);
    assert_eq!(updates[0].trade, None);
    assert_eq!(
        updates[1].trade,
        Some(Trade { card: Card::Heart, price: 6, buyer: SECOND, seller: FIRST })
    );
    assert_all_clear(&maker.books);
    assert_eq!(maker.player_points, vec![506, 494, 500]);
}

#[test]
fn no_second_trade_against_what_rested() {
    let mut maker = table(vec![FIRST, SECOND, THIRD]);
    maker.process_order(order(FIRST, Direction::Sell, Card::Spade, 5)).unwrap();
    maker.process_order(order(FIRST, Direction::Sell, Card::Heart, 5)).unwrap();
    maker.process_order(order(SECOND, Direction::Buy, Card::Spade, 5)).unwrap();
    let late = maker.process_order(order(THIRD, Direction::Buy, Card::Heart, 5)).unwrap();
    assert_eq!(late.trade, None);
    assert_eq!(maker.books.hearts.bid, quote(5, THIRD));
    assert_eq!(maker.player_points, vec![505, 495, 500]);
}

#[test]
fn zero_price_is_dropped() {
    let mut maker = table(vec![FIRST, SECOND]);
    maker.process_order(order(FIRST, Direction::Sell, Card::Spade, 5)).unwrap();
    let books = maker.books;
    assert_eq!(
        maker.process_order(order(SECOND, Direction::Buy, Card::Spade, 0)),
        Err(Rejection::ZeroPrice)
    );
    assert_eq!(
        maker.process_order(order(SECOND, Direction::Sell, Card::Spade, 0)),
        Err(Rejection::ZeroPrice)
    );
    assert_eq!(maker.books, books);
    assert_eq!(maker.player_points, vec![500, 500]);
    assert_eq!(maker.player_inventories, vec![Inventory { spades: 2, clubs: 2, diamonds: 2, hearts: 2 }; 2]);
}

#[test]
fn buy_at_the_ask_crosses() {
    let mut maker = table(vec![FIRST, SECOND]);
    maker.process_order(order(FIRST, Direction::Sell, Card::Diamond, 7)).unwrap();
    let update = maker.process_order(order(SECOND, Direction::Buy, Card::Diamond, 7)).unwrap();
    assert_eq!(
        update.trade,
        Some(Trade { card: Card::Diamond, price: 7, buyer: SECOND, seller: FIRST })
    );
}

#[test]
fn buy_above_the_ask_trades_at_the_ask() {
    let mut maker = table(vec![FIRST, SECOND]);
    maker.process_order(order(FIRST, Direction::Sell, Card::Diamond, 7)).unwrap();
    let update = maker.process_order(order(SECOND, Direction::Buy, Card::Diamond, 12)).unwrap();
    assert_eq!(
        update.trade,
        Some(Trade { card: Card::Diamond, price: 7, buyer: SECOND, seller: FIRST })
    );
    assert_eq!(maker.player_points, vec![507, 493]);
}

#[test]
fn buy_below_the_ask_rests() {
    let mut maker = table(vec![FIRST, SECOND]);
    maker.process_order(order(FIRST, Direction::Sell, Card::Diamond, 7)).unwrap();
    let update = maker.process_order(order(SECOND, Direction::Buy, Card::Diamond, 6)).unwrap();
    assert_eq!(update.trade, None);
    assert_eq!(
        maker.books.diamonds,
        Book { bid: quote(6, SECOND), ask: quote(7, FIRST), last_trade: None }
    );
}

#[test]
fn sell_at_the_bid_crosses() {
    let mut maker = table(vec![FIRST, SECOND]);
    maker.process_order(order(FIRST, Direction::Buy, Card::Club, 4)).unwrap();
    let update = maker.process_order(order(SECOND, Direction::Sell, Card::Club, 4)).unwrap();
    assert_eq!(
        update.trade,
        Some(Trade { card: Card::Club, price: 4, buyer: FIRST, seller: SECOND })
    );
    assert_eq!(maker.player_points, vec![496, 504]);
    assert_eq!(maker.player_inventories[0].clubs, 3);
    assert_eq!(maker.player_inventories[1].clubs, 1);
}

#[test]
fn sell_below_the_bid_trades_at_the_bid() {
    let mut maker = table(vec![FIRST, SECOND]);
    maker.process_order(order(FIRST, Direction::Buy, Card::Club, 4)).unwrap();
    let update = maker.process_order(order(SECOND, Direction::Sell, Card::Club, 1)).unwrap();
    assert_eq!(
        update.trade,
        Some(Trade { card: Card::Club, price: 4, buyer: FIRST, seller: SECOND })
    );
}

#[test]
fn buy_equal_to_the_bid_does_not_replace() {
    let mut maker = table(vec![FIRST, SECOND]);
    maker.process_order(order(FIRST, Direction::Buy, Card::Heart, 5)).unwrap();
    let update = maker.process_order(order(SECOND, Direction::Buy, Card::Heart, 5)).unwrap();
    assert_eq!(update.trade, None);
    assert_eq!(maker.books.hearts.bid, quote(5, FIRST));
    maker.process_order(order(SECOND, Direction::Buy, Card::Heart, 4)).unwrap();
    assert_eq!(maker.books.hearts.bid, quote(5, FIRST));
}

#[test]
fn sell_equal_to_the_ask_does_not_replace() {
    let mut maker = table(vec![FIRST, SECOND]);
    maker.process_order(order(FIRST, Direction::Sell, Card::Heart, 5)).unwrap();
    let update = maker.process_order(order(SECOND, Direction::Sell, Card::Heart, 5)).unwrap();
    assert_eq!(update.trade, None);
    assert_eq!(maker.books.hearts.ask, quote(5, FIRST));
    maker.process_order(order(SECOND, Direction::Sell, Card::Heart, 6)).unwrap();
    assert_eq!(maker.books.hearts.ask, quote(5, FIRST));
    maker.process_order(order(SECOND, Direction::Sell, Card::Heart, 4)).unwrap();
    assert_eq!(maker.books.hearts.ask, quote(4, SECOND));
}

#[test]
fn high_buy_on_an_empty_book_rests() {
    let mut maker = table(vec![FIRST, SECOND]);
    let update = maker.process_order(order(FIRST, Direction::Buy, Card::Spade, 150)).unwrap();
    assert_eq!(update.trade, None);
    assert_eq!(maker.books.spades, Book { bid: quote(150, FIRST), ask: no_ask(), last_trade: None });
}

#[test]
fn sell_at_the_empty_ask_price_does_not_rest() {
    let mut maker = table(vec![FIRST, SECOND]);
    let update = maker.process_order(order(FIRST, Direction::Sell, Card::Spade, 99)).unwrap();
    assert_eq!(update, Books::new().snapshot(None));
    maker.process_order(order(FIRST, Direction::Sell, Card::Spade, 98)).unwrap();
    assert_eq!(maker.books.spades.ask, quote(98, FIRST));
}

#[test]
fn buyer_without_the_points_is_refused() {
    let mut maker = table(vec![FIRST, SECOND]);
    maker.player_points = vec![500, 9];
    maker.process_order(order(FIRST, Direction::Sell, Card::Spade, 10)).unwrap();
    let books = maker.books;
    assert_eq!(
        maker.process_order(order(SECOND, Direction::Buy, Card::Spade, 10)),
        Err(Rejection::InsufficientPoints)
    );
    assert_eq!(maker.books, books);
    assert_eq!(maker.player_points, vec![500, 9]);
    assert_eq!(maker.player_inventories[0].spades, 2);
    assert_eq!(maker.player_inventories[1].spades, 2);
    maker.player_points[1] = 10;
    assert!(maker.process_order(order(SECOND, Direction::Buy, Card::Spade, 10)).is_ok());
    assert_eq!(maker.player_points, vec![510, 0]);
}

#[test]
fn resting_bidder_without_the_points_is_refused() {
    let mut maker = table(vec![FIRST, SECOND]);
    maker.player_points = vec![3, 500];
    maker.process_order(order(FIRST, Direction::Buy, Card::Spade, 4)).unwrap();
    assert_eq!(
        maker.process_order(order(SECOND, Direction::Sell, Card::Spade, 4)),
        Err(Rejection::InsufficientPoints)
    );
    assert_eq!(maker.books.spades.bid, quote(4, FIRST));
    assert_eq!(maker.player_points, vec![3, 500]);
}

#[test]
fn resting_seller_without_the_card_is_refused() {
    let mut maker = table(vec![FIRST, SECOND]);
    maker.books.spades.ask = quote(5, FIRST);
    maker.player_inventories[0].spades = 0;
    assert_eq!(
        maker.process_order(order(SECOND, Direction::Buy, Card::Spade, 5)),
        Err(Rejection::NoInventory)
    );
    assert_eq!(maker.books.spades.ask, quote(5, FIRST));
    assert_eq!(maker.player_points, vec![500, 500]);
}

#[test]
fn trade_with_oneself_moves_nothing_but_the_books() {
    let mut maker = table(vec![FIRST, SECOND]);
    maker.process_order(order(FIRST, Direction::Sell, Card::Spade, 5)).unwrap();
    maker.process_order(order(SECOND, Direction::Buy, Card::Heart, 2)).unwrap();
    let update = maker.process_order(order(FIRST, Direction::Buy, Card::Spade, 5)).unwrap();
    assert_eq!(
        update.trade,
        Some(Trade { card: Card::Spade, price: 5, buyer: FIRST, seller: FIRST })
    );
    assert_eq!(maker.player_points, vec![500, 500]);
    assert_eq!(maker.player_inventories[0].spades, 2);
    assert_all_clear(&maker.books);
    assert_eq!(maker.books.spades.last_trade, Some(5));
}

#[test]
fn orders_make_and_lose_nothing() {
    let mut maker = table(vec![FIRST, SECOND, THIRD]);
    maker.pot = 60;
    let points = total_points(&maker);
    let orders = vec![
        order(FIRST, Direction::Sell, Card::Spade, 9),
        order(SECOND, Direction::Buy, Card::Spade, 4),
        order(THIRD, Direction::Buy, Card::Spade, 9),
        order(THIRD, Direction::Sell, Card::Heart, 3),
        order(FIRST, Direction::Buy, Card::Heart, 3),
        order(SECOND, Direction::Buy, Card::Club, 6),
        order(FIRST, Direction::Sell, Card::Club, 2),
        order(SECOND, Direction::Sell, Card::Diamond, 0),
    ];
    let mut trades = 0;
    for next in orders {
        if let Ok(Update { trade: Some(_), .. }) = maker.process_order(next) {
            trades += 1;
        }
        assert_eq!(total_points(&maker), points);
        assert_eq!(maker.pot, 60);
        for card in [Card::Spade, Card::Club, Card::Diamond, Card::Heart] {
            assert_eq!(total_cards(&maker, card), 6);
            let book = maker.books.get(card);
            assert!(book.ask.price > book.bid.price || book.bid == no_bid() || book.ask == no_ask());
        }
    }
    assert_eq!(trades, 3);
    assert_eq!(maker.player_points, vec![500 + 9 - 3 + 6, 500 - 6, 500 - 9 + 3]);
}

#[test]
fn serve_drains_the_inbox_behind_a_trade() {
    let mut maker = table(vec![FIRST, SECOND, THIRD]);
    let (sender, inbox) = kanal::unbounded_async::<Order>();
    maker.process_order(order(FIRST, Direction::Sell, Card::Spade, 5)).unwrap();
    for buyer in [SECOND, THIRD, THIRD] {
        assert_eq!(sender.try_send(order(buyer, Direction::Buy, Card::Spade, 5)), Ok(true));
    }
    assert_eq!(inbox.len(), 3);
    let first = inbox.try_recv().unwrap().unwrap();
    assert_eq!(first.player_name, SECOND);
    let update = maker.serve(first, &inbox).unwrap();
    assert_eq!(
        update.trade,
        Some(Trade { card: Card::Spade, price: 5, buyer: SECOND, seller: FIRST })
    );
    assert_eq!(inbox.len(), 0);
    assert_eq!(inbox.try_recv(), Ok(None));
    assert_eq!(maker.player_points, vec![505, 495, 500]);
    assert_eq!(maker.player_inventories[2].spades, 2);
    assert_all_clear(&maker.books);
}

#[test]
fn serve_leaves_the_inbox_without_a_trade() {
    let mut maker = table(vec![FIRST, SECOND]);
    let (sender, inbox) = kanal::unbounded_async::<Order>();
    for price in [3, 4, 0] {
        assert_eq!(sender.try_send(order(SECOND, Direction::Buy, Card::Club, price)), Ok(true));
    }
    let rested = maker.serve(order(FIRST, Direction::Buy, Card::Club, 2), &inbox).unwrap();
    assert_eq!(rested.trade, None);
    assert_eq!(inbox.len(), 3);
    assert_eq!(
        maker.serve(order(FIRST, Direction::Sell, Card::Heart, 0), &inbox),
        Err(Rejection::ZeroPrice)
    );
    assert_eq!(inbox.len(), 3);
    let mut taken = Vec::new();
    while let Ok(Some(next)) = inbox.try_recv() {
        taken.push(next.price);
        let _ = maker.serve(next, &inbox);
    }
    assert_eq!(taken, vec![3, 4, 0]);
    assert_eq!(maker.books.clubs.bid, quote(4, SECOND));
}

#[test]
fn serve_with_a_closed_inbox_still_trades() {
    let mut maker = table(vec![FIRST, SECOND]);
    let (sender, inbox) = kanal::unbounded_async::<Order>();
    drop(sender);
    maker.serve(order(FIRST, Direction::Sell, Card::Spade, 5), &inbox).unwrap();
    let update = maker.serve(order(SECOND, Direction::Buy, Card::Spade, 6), &inbox).unwrap();
    assert_eq!(
        update.trade,
        Some(Trade { card: Card::Spade, price: 5, buyer: SECOND, seller: FIRST })
    );
}
