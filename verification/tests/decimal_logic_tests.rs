use debot::backtest::is_training_sample;
use debot::decimal::{DecimalOverflow, DecimalValue};
use debot::main_loop::{trader_action, FindOutcome, TraderAction};
use debot::trade::db_handler::{keep_latest, training_labels};
use debot::trade::derivative_trader::{invested_amount, is_max_dd_occurred, round_price};
use debot::trade::dex_emulator::{
    create_order, next_order_id, process_order_book, trade_id_of, FillContext, FillDraw, OrderBook,
    OrderBooks,
};
use debot::trade::fund_config::{TradingStrategy, TrendType};
use debot::trade::fund_manager::{
    amount_after_trade, can_execute_new_trade, cut_loss_price, is_profitable_position,
    order_price, take_profit_distance, target_price, unrealized_pnl, OrderSide,
};
use rust_decimal::Decimal;

fn d(s: &str) -> DecimalValue {
    let x: Decimal = s.parse().unwrap();
    DecimalValue { mantissa: x.mantissa(), scale: x.scale() }
}

fn v(x: DecimalValue) -> Decimal {
    Decimal::from_i128_with_scale(x.mantissa, x.scale)
}

fn n(s: &str) -> Decimal {
    s.parse().unwrap()
}

#[test]
fn order_price_choices() {
    let p = order_price(d("100"), Some(d("99.5")), Some(d("0.2")), d("5"), true).unwrap();
    assert_eq!(v(p), n("99.5"));
    let p = order_price(d("100"), None, Some(d("0.2")), d("5"), true).unwrap();
    assert_eq!(v(p), n("99"));
    let p = order_price(d("100"), None, Some(d("0.2")), d("5"), false).unwrap();
    assert_eq!(v(p), n("101"));
    let p = order_price(d("100"), None, None, d("5"), false).unwrap();
    assert_eq!(v(p), n("100"));
}

#[test]
fn take_profit_distance_and_target() {
    let dist = take_profit_distance(d("200"), Some(d("0.01")), d("3"), d("1")).unwrap();
    assert_eq!(dist.map(v), Some(n("2")));
    let dist = take_profit_distance(d("200"), None, d("3"), d("2")).unwrap();
    assert_eq!(dist.map(v), Some(n("6")));
    assert_eq!(take_profit_distance(d("200"), None, d("0"), d("2")).unwrap(), None);
    let t = target_price(d("200"), Some(d("6")), OrderSide::Long).unwrap();
    assert_eq!(t.map(v), Some(n("206")));
    let t = target_price(d("200"), Some(d("6")), OrderSide::Short).unwrap();
    assert_eq!(t.map(v), Some(n("194")));
    assert_eq!(target_price(d("200"), None, OrderSide::Short).unwrap(), None);
}

#[test]
fn cut_loss_by_one_atr() {
    assert_eq!(cut_loss_price(d("50"), d("1.5"), OrderSide::Long).unwrap().map(v), Some(n("48.5")));
    assert_eq!(cut_loss_price(d("50"), d("1.5"), OrderSide::Short).unwrap().map(v), Some(n("51.5")));
    assert_eq!(cut_loss_price(d("50"), d("0"), OrderSide::Short).unwrap(), None);
}

#[test]
fn amount_and_pnl_bookkeeping() {
    let a = amount_after_trade(d("1000"), d("1200"), Some(d("300")), d("50")).unwrap();
    assert_eq!(v(a), n("900"));
    let a = amount_after_trade(d("1000"), d("1200"), Some(d("-300")), d("50")).unwrap();
    assert_eq!(v(a), n("900"));
    let a = amount_after_trade(d("1000"), d("1200"), None, d("50")).unwrap();
    assert_eq!(v(a), n("950"));
    let (pnl, ratio) = unrealized_pnl(Some((d("2"), d("-100"))), d("55")).unwrap();
    assert_eq!(v(pnl), n("10"));
    assert_eq!(v(ratio), n("0.1"));
    let (pnl, ratio) = unrealized_pnl(None, d("55")).unwrap();
    assert_eq!((v(pnl), v(ratio)), (Decimal::ZERO, Decimal::ZERO));
    assert_eq!(unrealized_pnl(Some((d("2"), d("0"))), d("55")), Err(DecimalOverflow));
}

#[test]
fn profitable_beyond_a_tenth_of_a_percent() {
    assert!(is_profitable_position(OrderSide::Long, d("100.2"), d("100")).unwrap());
    assert!(!is_profitable_position(OrderSide::Long, d("100.1"), d("100")).unwrap());
    assert!(is_profitable_position(OrderSide::Short, d("99.8"), d("100")).unwrap());
    assert!(!is_profitable_position(OrderSide::Short, d("99.9"), d("100")).unwrap());
}

#[test]
fn trade_pacing() {
    assert!(!can_execute_new_trade(true, None, 100, 10));
    assert!(can_execute_new_trade(false, None, 100, 10));
    assert!(!can_execute_new_trade(false, Some(95), 100, 10));
    assert!(can_execute_new_trade(false, Some(90), 100, 10));
}

#[test]
fn price_rounding_to_ticks() {
    assert_eq!(v(round_price(d("123.456"), Some(d("0.01"))).unwrap()), n("123.46"));
    assert_eq!(v(round_price(d("2.5"), None).unwrap()), n("2"));
    assert_eq!(v(round_price(d("3.5"), None).unwrap()), n("4"));
    assert_eq!(round_price(d("1"), Some(d("0"))), Err(DecimalOverflow));
}

#[test]
fn draw_down_detection() {
    assert!(is_max_dd_occurred(d("1000"), d("850"), d("0.1")).unwrap());
    assert!(!is_max_dd_occurred(d("1000"), d("950"), d("0.1")).unwrap());
    assert!(!is_max_dd_occurred(d("1000"), d("1100"), d("0.1")).unwrap());
    assert_eq!(is_max_dd_occurred(d("0"), d("0"), d("0.1")), Err(DecimalOverflow));
}

#[test]
fn invested_amount_is_rounded_absolute_sum() {
    let assets = vec![d("-10.26"), d("-5.01")];
    assert_eq!(v(invested_amount(&assets).unwrap()), n("15.3"));
    assert_eq!(v(invested_amount(&vec![]).unwrap()), Decimal::ZERO);
}

fn order(price: Option<&str>, size: &str, id: u32) -> OrderBook {
    OrderBook { price: price.map(d), size: d(size), order_id: id, partially_filled: false }
}

fn certain() -> FillDraw {
    FillDraw { roll: d("0.1"), fraction: d("0.5") }
}

fn partial() -> FillDraw {
    FillDraw { roll: d("0.9"), fraction: d("0.5") }
}

#[test]
fn emulated_buy_book_fills() {
    let mut book = vec![order(Some("101"), "2", 1), order(Some("99"), "1", 2), order(None, "3", 3)];
    let mut fills = Vec::new();
    let context = FillContext {
        current_price: d("100"),
        is_buy_order: true,
        filled_probability: d("0.5"),
        slippage: d("0.01"),
    };
    let draws = vec![certain(), certain(), partial()];
    process_order_book(&mut book, &mut fills, &draws, context).unwrap();
    // order 1 fills completely at its limit; order 2 stays (limit below the price);
    // the market order fills half at 101 and stays partly filled.
    assert_eq!(fills.len(), 2);
    assert_eq!((fills[0].0, v(fills[0].1), v(fills[0].2), fills[0].3), (1, n("2"), n("101"), OrderSide::Long));
    assert_eq!((fills[1].0, v(fills[1].1), v(fills[1].2)), (3, n("1.5"), n("101.00")));
    assert_eq!(book.len(), 2);
    assert_eq!(book[0], order(Some("99"), "1", 2));
    assert_eq!(book[1].order_id, 3);
    assert!(book[1].partially_filled);
    assert_eq!(v(book[1].size), n("1.5"));
    // a partly filled order fills the rest on the next pass
    let draws = vec![partial(), partial()];
    process_order_book(&mut book, &mut fills, &draws, context).unwrap();
    assert_eq!(fills.len(), 3);
    assert_eq!((fills[2].0, v(fills[2].1)), (3, n("1.5")));
    // order 2 drew a partial fill, so it is marked partly filled though its price did not match
    let mut marked = order(Some("99"), "1", 2);
    marked.partially_filled = true;
    assert_eq!(book, vec![marked]);
}

#[test]
fn emulated_sell_book_fills_at_or_below_price() {
    let mut book = vec![order(Some("99"), "1", 7), order(Some("105"), "1", 8)];
    let mut fills = Vec::new();
    let context = FillContext {
        current_price: d("100"),
        is_buy_order: false,
        filled_probability: d("1"),
        slippage: d("0.01"),
    };
    process_order_book(&mut book, &mut fills, &vec![certain(), certain()], context).unwrap();
    assert_eq!(fills.len(), 1);
    assert_eq!((fills[0].0, fills[0].3), (7, OrderSide::Short));
    assert_eq!(book, vec![order(Some("105"), "1", 8)]);
}

#[test]
fn emulated_orders_are_created_and_cancelled() {
    let mut books = OrderBooks::new();
    let mut counter = 41;
    let (id, price, size) =
        create_order(&mut books, &mut counter, d("1.1234567"), OrderSide::Long, Some(d("99.999999")));
    assert_eq!(id, 42);
    assert_eq!(counter, 42);
    assert_eq!(v(price), n("99.99999"));
    assert_eq!(v(size), n("1.12345"));
    let (id2, price2, _) = create_order(&mut books, &mut counter, d("2"), OrderSide::Short, None);
    assert_eq!(id2, 43);
    assert_eq!(v(price2), Decimal::ZERO);
    assert_eq!(books.buy_order_books.len(), 1);
    assert_eq!(books.sell_order_books.len(), 1);
    books.cancel_order(42);
    assert!(books.buy_order_books.is_empty());
    assert_eq!(books.sell_order_books.len(), 1);
    books.cancel_all_orders();
    assert!(books.sell_order_books.is_empty());
    assert_eq!(next_order_id(&mut counter), 44);
    assert_eq!(trade_id_of(44), 1044);
}

#[test]
fn latest_points_are_kept() {
    let mut points = vec![1, 2, 3, 4, 5];
    keep_latest(&mut points, 3);
    assert_eq!(points, vec![3, 4, 5]);
    keep_latest(&mut points, 10);
    assert_eq!(points, vec![3, 4, 5]);
    keep_latest(&mut points, 0);
    assert!(points.is_empty());
}

#[test]
fn labels_of_closed_positions() {
    let take_profit = "TakeProfit".to_string();
    let other = "Liquidated".to_string();
    let (won, ratio, ticks) = training_labels(Some(&take_profit), d("5"), d("0.123456"), 7);
    assert_eq!((v(won), v(ratio), ticks.map(v)), (n("1"), n("0.1235"), Some(n("7"))));
    let (won, ratio, ticks) = training_labels(Some(&other), d("5"), d("0.12"), 7);
    assert_eq!((v(won), v(ratio), ticks.map(v)), (n("0"), n("0"), Some(n("7"))));
    let (won, ratio, ticks) = training_labels(None, d("-5"), d("-0.1"), 7);
    assert_eq!((v(won), v(ratio), ticks.map(v)), (n("0"), n("0"), Some(n("-1"))));
}

#[test]
fn training_sample_selection() {
    let s = |x: &str| x.to_string();
    let mr = TradingStrategy::MeanReversion(TrendType::Unknown);
    let tf = TradingStrategy::TrendFollow(TrendType::Unknown);
    assert!(is_training_sample(&s("BTC-USD"), &s("Long"), &s("Closed(CutLoss)"), &s("BTC-USD"), &s("Long"), mr, false));
    assert!(!is_training_sample(&s("BTC-USD"), &s("Long"), &s("Closed(CutLoss)"), &s("BTC-USD"), &s("Long"), mr, true));
    assert!(is_training_sample(&s("BTC-USD"), &s("Short"), &s("Closed(Expired)"), &s("BTC-USD"), &s("Short"), tf, true));
    assert!(!is_training_sample(&s("BTC-USD"), &s("Short"), &s("Closed(Expired)"), &s("BTC-USD"), &s("Short"), tf, false));
    assert!(!is_training_sample(&s("ETH-USD"), &s("Long"), &s("Closed(CutLoss)"), &s("BTC-USD"), &s("Long"), mr, false));
    assert!(!is_training_sample(&s("BTC-USD"), &s("Long"), &s("Open"), &s("BTC-USD"), &s("Long"), mr, false));
}

#[test]
fn trader_actions() {
    assert_eq!(trader_action(FindOutcome::Done), TraderAction::ClearErrors);
    assert_eq!(trader_action(FindOutcome::BackTestFinished), TraderAction::Stop);
    assert_eq!(trader_action(FindOutcome::Failed), TraderAction::RecordErrorAndReconnect);
}
