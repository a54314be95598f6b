use debot::backtest::{is_model_key, split_model_key};
use debot::db::{Counter, CounterType};
use debot::decimal::{DecimalOverflow, DecimalValue};
use debot::main_loop::{
    daily_pnl, drawdown_action, is_daily_due, is_hourly_due, DrawdownAction, NANOS_PER_DAY,
    NANOS_PER_HOUR,
};
use debot::trade::db_handler::{
    latest_price_market_data, logs_position, training_inputs, PositionReadings,
};
use debot::trade::derivative_trader::{
    back_test_ready, distinct_tokens, fill_step, find_chances_step, market_data_steps,
    unhandled_fills, FillStep, MarketDataStep, RoundAction, RoundEnd, RoundEvent, RoundPhase,
    RoundState,
};
use debot::trade::dex_emulator::{
    filled_orders, parse_order_id, FillDraw, InvalidOrderId, OrderBook, OrderBooks,
};
use debot::trade::fund_manager::{
    after_order, open_pass_step, order_request, AfterOrder, MarketReadings, OpenPass,
    OpenSettings, OrderReply, OrderSide, ReasonForClose, TradeAction, TradeDetail,
    WrongTokenAmount,
};
use debot::trade::TransactionLog;
use rust_decimal::Decimal;

fn d(s: &str) -> DecimalValue {
    let x: Decimal = s.parse().unwrap();
    DecimalValue { mantissa: x.mantissa(), scale: x.scale() }
}

fn v(x: DecimalValue) -> Decimal {
    Decimal::from_i128_with_scale(x.mantissa, x.scale)
}

fn n(s: &str) -> Decimal {
    s.parse().unwrap()
}

#[test]
fn counter_ids_from_zero_cycle() {
    let mut counter = Counter::new(3, 1, 5, 0, 0, 0);
    let ids: Vec<u32> = (0..8).map(|_| counter.increment(CounterType::Position)).collect();
    assert_eq!(ids, vec![1, 2, 3, 1, 2, 3, 1, 2]);
    for k in 1..=8u32 {
        assert_eq!(ids[(k - 1) as usize], (k - 1) % 3 + 1);
    }
    assert_eq!(counter.increment(CounterType::Price), 1);
    assert_eq!(counter.increment(CounterType::Price), 1);
}

#[test]
fn counter_kinds_do_not_interfere() {
    let mut a = Counter::new(4, 4, 4, 2, 2, 2);
    let mut b = Counter::new(4, 4, 4, 2, 2, 2);
    a.increment(CounterType::Price);
    a.increment(CounterType::Balance);
    assert_eq!(a.increment(CounterType::Position), b.increment(CounterType::Position));
}

#[test]
fn log_counter_matches_counter() {
    let mut log = TransactionLog::new(2, 2, 2, 0, 0, 0, "db");
    let mut counter = Counter::new(2, 2, 2, 0, 0, 0);
    assert_eq!(log.increment_counter(CounterType::Position), 1);
    assert_eq!(counter.increment(CounterType::Position), 1);
    for _ in 0..5 {
        assert_eq!(log.increment_counter(CounterType::Balance), counter.increment(CounterType::Balance));
    }
    assert_eq!(log.db_name(), "db");
}

#[test]
fn order_ids_parse_like_u32() {
    assert_eq!(parse_order_id("42"), Ok(42));
    assert_eq!(parse_order_id("+7"), Ok(7));
    assert_eq!(parse_order_id("007"), Ok(7));
    assert_eq!(parse_order_id("4294967295"), Ok(u32::MAX));
    assert_eq!(parse_order_id("4294967296"), Err(InvalidOrderId));
    assert_eq!(parse_order_id(""), Err(InvalidOrderId));
    assert_eq!(parse_order_id("+"), Err(InvalidOrderId));
    assert_eq!(parse_order_id("-1"), Err(InvalidOrderId));
    assert_eq!(parse_order_id("12a"), Err(InvalidOrderId));
}

fn order(price: Option<&str>, size: &str, id: u32) -> OrderBook {
    OrderBook { price: price.map(d), size: d(size), order_id: id, partially_filled: false }
}

#[test]
fn fills_are_reported_buy_side_first() {
    let mut books = OrderBooks::new();
    books.buy_order_books.push(order(Some("101"), "2", 1));
    books.buy_order_books.push(order(Some("90"), "1", 2));
    books.sell_order_books.push(order(Some("99"), "3", 3));
    let draw = FillDraw { roll: d("0.1"), fraction: d("0.5") };
    let report = filled_orders(&mut books, &vec![draw, draw], &vec![draw], d("100"), d("0.5"), d("0.01")).unwrap();
    assert_eq!(report.len(), 2);
    assert_eq!(report[0].order_id, 1);
    assert_eq!(report[0].trade_id, 1001);
    assert_eq!(report[0].filled_side, OrderSide::Long);
    assert_eq!(v(report[0].filled_value), n("202"));
    assert_eq!(v(report[0].filled_fee), n("0"));
    assert!(!report[0].is_rejected);
    assert_eq!(report[1].order_id, 3);
    assert_eq!(report[1].filled_side, OrderSide::Short);
    assert_eq!(v(report[1].filled_value), n("297"));
    assert_eq!(books.buy_order_books.len(), 1);
    assert_eq!(books.buy_order_books[0].order_id, 2);
    assert!(books.sell_order_books.is_empty());
}

#[test]
fn latest_prices_per_trader_and_token() {
    let data = vec![(
        "trader".to_string(),
        vec![("BTC".to_string(), vec![1, 2, 3, 4]), ("ETH".to_string(), vec![5])],
    )];
    let cut = latest_price_market_data(Some(data.clone()), Some(2));
    assert_eq!(
        cut,
        vec![("trader".to_string(), vec![("BTC".to_string(), vec![3, 4]), ("ETH".to_string(), vec![5])])]
    );
    assert_eq!(latest_price_market_data(Some(data.clone()), None), data);
    assert!(latest_price_market_data::<u32>(None, Some(2)).is_empty());
}

fn settings() -> OpenSettings {
    OpenSettings { trading_amount: d("1000"), atr_spread: None, take_profit_ratio: Some(d("0.01")), risk_reward: d("2") }
}

fn detail(amount: &str) -> TradeDetail {
    TradeDetail { order_price: None, amount_in_usd: Some(d(amount)), confidence: d("1") }
}

#[test]
fn open_pass_skips_and_stops() {
    let actions = vec![
        TradeAction::Other,
        TradeAction::BuyOpen(detail("500")),
        TradeAction::SellOpen(detail("1")),
        TradeAction::SellOpen(detail("2")),
    ];
    let readings = MarketReadings { atr: d("3"), atr_of_term: d("5") };
    // 500 tokens at 100 cost more than the fund holds: skipped.
    let step = open_pass_step(d("100"), &actions, settings(), readings, d("1000"), 0, false).unwrap();
    match step {
        OpenPass::Execute { index, order } => {
            assert_eq!(index, 2);
            assert_eq!(order.side, OrderSide::Short);
            assert_eq!(v(order.token_amount), n("1"));
        }
        other => panic!("unexpected {:?}", other),
    }
    let step = open_pass_step(d("100"), &actions, settings(), readings, d("1000"), 3, false).unwrap();
    assert!(matches!(step, OpenPass::Execute { index: 3, .. }));
    assert_eq!(
        open_pass_step(d("100"), &actions, settings(), readings, d("1000"), 4, false),
        Ok(OpenPass::Finished)
    );
    assert_eq!(
        open_pass_step(d("100"), &actions, settings(), readings, d("1000"), 3, true),
        Ok(OpenPass::Failed)
    );
}

#[test]
fn order_requests_and_replies() {
    let r = order_request(d("2"), true, d("10"), None, false).unwrap();
    assert_eq!(r.side, OrderSide::Long);
    assert_eq!(r.size, d("2"));
    assert_eq!(r.price, Some(d("10")));
    let r = order_request(d("2"), false, d("10"), Some(ReasonForClose::Expired), true).unwrap();
    assert_eq!(r.side, OrderSide::Short);
    assert_eq!(r.price, None);
    assert_eq!(order_request(d("0"), true, d("10"), None, false), Err(WrongTokenAmount));

    assert_eq!(after_order(OrderReply::Failed), AfterOrder::Done);
    assert_eq!(
        after_order(OrderReply::Placed { ordered_size: d("0"), ordered_price: d("10") }),
        AfterOrder::Done
    );
    assert_eq!(
        after_order(OrderReply::Placed { ordered_size: d("1"), ordered_price: d("0") }),
        AfterOrder::RecordPosition { ordered_size: d("1"), ordered_price: None }
    );
    assert_eq!(
        after_order(OrderReply::Placed { ordered_size: d("1"), ordered_price: d("10") }),
        AfterOrder::RecordPosition { ordered_size: d("1"), ordered_price: Some(d("10")) }
    );
}

#[test]
fn daily_and_hourly_checks() {
    let t = 1_000 * NANOS_PER_DAY;
    assert!(is_daily_due(false, None, t));
    assert!(!is_daily_due(true, None, t));
    assert!(!is_daily_due(false, Some(t), t + NANOS_PER_DAY));
    assert!(is_daily_due(false, Some(t), t + NANOS_PER_DAY + 1));
    assert!(!is_daily_due(false, Some(t + 5), t));
    assert!(is_hourly_due(false, Some(t), t + NANOS_PER_HOUR));
    assert!(!is_hourly_due(false, Some(t), t + NANOS_PER_HOUR - 1));
    assert!(!is_hourly_due(true, Some(t), t + 2 * NANOS_PER_HOUR));
}

#[test]
fn daily_pnl_and_drawdown() {
    assert_eq!(daily_pnl(None, Some(d("5"))), Ok(None));
    let (pnl, equity) = daily_pnl(Some(d("105.5")), Some(d("100"))).unwrap().unwrap();
    assert_eq!(v(pnl), n("5.5"));
    assert_eq!(equity, d("105.5"));
    let (pnl, _) = daily_pnl(Some(d("7")), None).unwrap().unwrap();
    assert_eq!(v(pnl), n("0"));
    let big = DecimalValue { mantissa: 0xFFFF_FFFF_FFFF_FFFF_FFFF_FFFF, scale: 0 };
    let neg = DecimalValue { mantissa: -0xFFFF_FFFF_FFFF_FFFF_FFFF_FFFF, scale: 0 };
    assert_eq!(daily_pnl(Some(big), Some(neg)), Err(DecimalOverflow));
    assert_eq!(drawdown_action(Some(true)), DrawdownAction::LiquidateAndStop);
    assert_eq!(drawdown_action(Some(false)), DrawdownAction::Continue);
    assert_eq!(drawdown_action(None), DrawdownAction::RecordErrorAndReconnect);
}

#[test]
fn round_queries_and_market_data() {
    assert_eq!(distinct_tokens(&vec![3, 1, 3, 2, 1]), vec![3, 1, 2]);
    assert!(back_test_ready(false, &vec![false]));
    assert!(back_test_ready(true, &vec![true, true]));
    assert!(!back_test_ready(true, &vec![true, false]));
    let steps = market_data_steps(&vec![7, 7, 8, 9], &vec![true, true, false, true], true, false);
    let s = |a, b, c| MarketDataStep { add_price: a, save_price: b, precompute: c };
    assert_eq!(steps, vec![s(true, true, true), s(true, false, true), s(false, false, false), s(true, true, true)]);
    let steps = market_data_steps(&vec![7, 7], &vec![true, true], false, true);
    assert_eq!(steps, vec![s(true, false, false), s(true, false, false)]);
    assert_eq!(fill_step(true), FillStep::CancelRejected);
    assert_eq!(fill_step(false), FillStep::OfferToFunds);
    assert_eq!(unhandled_fills(&vec![10, 11, 12], &vec![true, false, false]), vec![11, 12]);
}

fn six(a: &str) -> (DecimalValue, DecimalValue, DecimalValue, DecimalValue, DecimalValue, DecimalValue) {
    (d("100.123456"), d(a), d("2.00005"), d("3.00015"), d("4"), d("5.123449"))
}

#[test]
fn position_log_features() {
    assert!(logs_position(true, true));
    assert!(!logs_position(true, false));
    assert!(!logs_position(false, true));
    let r = PositionReadings {
        price: six("1"),
        atr: six("1.11115"),
        rsi: six("50"),
        last_volume: None,
        last_num_trades: Some(12),
        last_funding_rate: Some(d("0.000125")),
        last_open_interest: None,
        last_oracle_price: Some(d("100.5")),
        atr_spread: d("0.2"),
        open_tick_count_max: 30,
        take_profit_ratio: d("0.01"),
        atr_term: d("1"),
    };
    let x = training_inputs(r).unwrap();
    assert_eq!(x.len(), 29);
    assert_eq!(v(x[0]), n("3.0002"));
    assert_eq!(v(x[1]), n("4"));
    assert_eq!(v(x[2]), n("5.1234"));
    assert_eq!(v(x[3]), n("1.1112"));
    assert_eq!(v(x[13]), n("0"));
    assert_eq!(v(x[14]), n("12"));
    assert_eq!(v(x[15]), n("0.0001"));
    assert_eq!(v(x[17]), n("100.5") - n("100.1235"));
    assert_eq!(v(x[20]), n("30"));
    assert_eq!(v(x[21]), n("1"));
    assert_eq!(v(x[28]), n("0"));
}

#[test]
fn model_keys() {
    assert!(is_model_key("BTC-USD_Long"));
    assert_eq!(split_model_key("BTC-USD_Long"), ("BTC-USD".to_string(), "Long".to_string()));
    assert!(is_model_key("_x"));
    assert_eq!(split_model_key("_x"), ("".to_string(), "x".to_string()));
    assert!(!is_model_key("BTCUSD"));
    assert!(!is_model_key("a_b_c"));
}

#[test]
fn a_whole_round() {
    let start = RoundState { phase: RoundPhase::Idle, back_test_counter: 4 };
    let (st, action, end) = find_chances_step(
        start,
        RoundEvent::Begin { fund_tokens: vec![5, 6, 5], back_test: true, points_found: vec![true, true] },
    );
    assert_eq!(st.phase, RoundPhase::QueryingPrices);
    assert!(matches!(action, RoundAction::QueryPrices { ref tokens, back_test_index: Some(4) } if *tokens == vec![5, 6]));
    assert_eq!(end, None);

    let (st, action, end) = find_chances_step(
        st,
        RoundEvent::PricesQueried {
            all_ok: true,
            key_tokens: vec![5, 6],
            priced: vec![true, true],
            save_prices: true,
            only_read_price: false,
        },
    );
    assert_eq!(st, RoundState { phase: RoundPhase::FetchingFills, back_test_counter: 5 });
    assert!(matches!(action, RoundAction::UpdateMarketData(ref s) if s.len() == 2 && s[1].save_price));
    assert_eq!(end, None);

    let (st, action, _) = find_chances_step(st, RoundEvent::FillsFetched { all_ok: true, rejected: vec![false, true] });
    assert!(matches!(action, RoundAction::HandleFills(ref s)
        if *s == vec![FillStep::OfferToFunds, FillStep::CancelRejected]));

    let (st, action, _) = find_chances_step(
        st,
        RoundEvent::FillsHandled { all_ok: true, trade_ids: vec![1001, 1002], taken: vec![true, false] },
    );
    assert_eq!(st.phase, RoundPhase::FindingChances);
    assert!(matches!(action, RoundAction::ReportUnhandledAndFindChances(ref u) if *u == vec![1002]));

    let (st, action, end) = find_chances_step(st, RoundEvent::ChancesFound { all_ok: true });
    assert_eq!(st.phase, RoundPhase::Idle);
    assert!(matches!(action, RoundAction::CleanCanceled));
    assert_eq!(end, Some(RoundEnd::Completed));
}

#[test]
fn rounds_that_end_early() {
    let start = RoundState { phase: RoundPhase::Idle, back_test_counter: 0 };
    let (_, action, end) = find_chances_step(
        start,
        RoundEvent::Begin { fund_tokens: vec![5], back_test: true, points_found: vec![false] },
    );
    assert!(matches!(action, RoundAction::Nothing));
    assert_eq!(end, Some(RoundEnd::BackTestFinished));

    let querying = RoundState { phase: RoundPhase::QueryingPrices, back_test_counter: 0 };
    let (st, _, end) = find_chances_step(
        querying,
        RoundEvent::PricesQueried {
            all_ok: true,
            key_tokens: vec![5],
            priced: vec![true],
            save_prices: false,
            only_read_price: true,
        },
    );
    assert_eq!(st, RoundState { phase: RoundPhase::Idle, back_test_counter: 1 });
    assert_eq!(end, Some(RoundEnd::Completed));

    let (_, _, end) = find_chances_step(querying, RoundEvent::ChancesFound { all_ok: true });
    assert_eq!(end, Some(RoundEnd::Failed));
}
