use debot::backtest::{training_rows, LoggedPosition};
use debot::config::{env_config, trading_settings, ConfigError, EnvValues};
use debot::decimal::{minus, plus, times, DecimalValue};
use debot::main_loop::{
    main_loop_step, FindOutcome, LoopAction, LoopEvent, LoopPhase, LoopState, NANOS_PER_DAY,
    NANOS_PER_HOUR,
};
use debot::number_text::parse_integer;
use debot::trade::db_handler::{position_log, PositionFacts, PositionReadings};
use debot::trade::forecast_trader::{is_token_listed, trading_style, TradingStyle};
use debot::trade::fund_config::{TradingStrategy, TrendType};
use debot::trade::price_history::{add_price_point, TimedPoint};
use debot::trade::trader_config;
use rust_decimal::Decimal;

fn d(s: &str) -> DecimalValue {
    let x: Decimal = s.parse().unwrap();
    DecimalValue { mantissa: x.mantissa(), scale: x.scale() }
}

fn v(x: DecimalValue) -> Decimal {
    Decimal::from_i128_with_scale(x.mantissa, x.scale)
}

fn n(s: &str) -> Decimal {
    s.parse().unwrap()
}

fn empty_values() -> EnvValues {
    EnvValues {
        position_log_limit: None,
        dry_run: None,
        interval_secs: None,
        max_price_size_hours: None,
        max_error_duration: None,
        save_prices: None,
        load_prices: None,
        liquidate_when_exit: None,
        max_dd_ratio: None,
        close_order_effective_duration_secs: None,
        use_market_order: None,
        leverage: None,
        trading_strategy: None,
        only_read_price: None,
        back_test: None,
        path_to_models: None,
    }
}

fn s(text: &str) -> Option<String> {
    Some(text.to_string())
}

#[test]
fn integers_parse_like_rust() {
    assert_eq!(parse_integer("-9223372036854775808", i64::MIN as i128, i64::MAX as i128), Some(i64::MIN as i128));
    assert_eq!(parse_integer("9223372036854775808", i64::MIN as i128, i64::MAX as i128), None);
    assert_eq!(parse_integer("-0", i64::MIN as i128, i64::MAX as i128), Some(0));
    assert_eq!(parse_integer("-0", 0, u32::MAX as i128), None);
    assert_eq!(parse_integer("-", i64::MIN as i128, i64::MAX as i128), None);
    assert_eq!(parse_integer("18446744073709551615", 0, u64::MAX as i128), Some(u64::MAX as i128));
    assert_eq!(parse_integer(" 1", 0, u64::MAX as i128), None);
    for text in ["0", "+12", "-7", "999999999999", "x", "", "1e3"] {
        let expected = text.parse::<i64>().ok().map(|x| x as i128);
        assert_eq!(parse_integer(text, i64::MIN as i128, i64::MAX as i128), expected, "{}", text);
    }
}

#[test]
fn settings_defaults() {
    let values = empty_values();
    let settings = trading_settings(&values).unwrap();
    assert_eq!(settings.position_log_limit, None);
    assert!(settings.dry_run);
    assert_eq!(settings.interval_secs, 60);
    assert_eq!(settings.max_price_size, 60);
    assert_eq!(settings.max_error_duration, 60);
    assert!(!settings.save_prices);
    assert!(!settings.load_prices);
    assert!(settings.liquidate_when_exit);
    assert_eq!(v(settings.max_dd_ratio), n("0.1"));
    assert_eq!(settings.close_order_effective_duration_secs, 300);
    assert!(!settings.use_market_order);
    let config = env_config(
        values,
        settings,
        "uri".to_string(),
        "r".to_string(),
        "w".to_string(),
        "rest".to_string(),
        "ws".to_string(),
    )
    .unwrap();
    assert_eq!(config.leverage, 1);
    assert_eq!(config.strategy, None);
    assert!(!config.only_read_price);
    assert!(!config.back_test);
    assert_eq!(config.path_to_models, None);
    assert_eq!(config.db_w_name, "w");
    assert_eq!(config.rest_endpoint, "rest");
}

#[test]
fn settings_given() {
    let mut values = empty_values();
    values.position_log_limit = s("oops");
    values.dry_run = s("FALSE");
    values.interval_secs = s("30");
    values.max_price_size_hours = s("2");
    values.max_dd_ratio = s("0.25");
    values.save_prices = s("1");
    values.trading_strategy = s("meanreversion");
    values.leverage = s("3");
    values.path_to_models = s("/models");
    let settings = trading_settings(&values).unwrap();
    assert_eq!(settings.position_log_limit, None);
    assert!(!settings.dry_run);
    assert!(settings.save_prices);
    assert_eq!(settings.max_price_size, 240);
    assert_eq!(v(settings.max_dd_ratio), n("0.25"));
    let config = env_config(values, settings, String::new(), String::new(), String::new(), String::new(), String::new()).unwrap();
    assert_eq!(config.strategy, Some(TradingStrategy::MeanReversion(TrendType::Unknown)));
    assert_eq!(config.leverage, 3);
    assert_eq!(config.path_to_models, Some("/models".to_string()));
}

#[test]
fn settings_errors() {
    let mut values = empty_values();
    values.max_error_duration = s("-1");
    assert_eq!(trading_settings(&values), Err(ConfigError::InvalidInteger));
    let mut values = empty_values();
    values.max_dd_ratio = s("ten percent");
    assert_eq!(trading_settings(&values), Err(ConfigError::InvalidDecimal));
    let mut values = empty_values();
    values.leverage = s("2x");
    let settings = trading_settings(&values).unwrap();
    assert!(env_config(values, settings, String::new(), String::new(), String::new(), String::new(), String::new()).is_err());
}

#[test]
fn exact_decimal_arithmetic() {
    assert_eq!(plus(d("1.25"), d("2.50")), Ok(DecimalValue { mantissa: 375, scale: 2 }));
    assert_eq!(minus(d("1.25"), d("2.50")), Ok(DecimalValue { mantissa: -125, scale: 2 }));
    assert_eq!(times(d("1.5"), d("0.25")), Ok(DecimalValue { mantissa: 375, scale: 3 }));
    assert_eq!(times(d("0.00"), d("7.5")), Ok(DecimalValue { mantissa: 0, scale: 0 }));
}

fn logged(token: &str, kind: &str, state: &str, spread: &str, out3: Option<&str>) -> LoggedPosition {
    LoggedPosition {
        token_name: token.to_string(),
        position_type: kind.to_string(),
        state: state.to_string(),
        inputs: vec![d("1"), d("2")],
        spread_input: d(spread),
        output_1: d("1"),
        output_2: d("0.05"),
        output_3: out3.map(d),
    }
}

#[test]
fn training_rows_keep_order_and_labels() {
    let positions = vec![
        logged("BTC", "Long", "Closed(TakeProfit)", "0.2", Some("12")),
        logged("ETH", "Long", "Closed(TakeProfit)", "0.2", None),
        logged("BTC", "Long", "Closed(Liquidated)", "0.2", None),
        logged("BTC", "Long", "Closed(Expired)", "0", None),
        logged("BTC", "Long", "Closed(CutLoss)", "0.4", None),
    ];
    let rows = training_rows(
        positions,
        &"BTC".to_string(),
        &"Long".to_string(),
        TradingStrategy::MeanReversion(TrendType::Up),
    );
    assert_eq!(rows.len(), 2);
    assert_eq!(v(rows[0].ticks_label), n("12"));
    assert_eq!(v(rows[1].ticks_label), n("-1"));
    assert_eq!(rows[1].inputs, vec![d("1"), d("2")]);
    assert_eq!(v(rows[1].class_label), n("1"));
    assert_eq!(v(rows[1].ratio_label), n("0.05"));
}

fn six() -> (DecimalValue, DecimalValue, DecimalValue, DecimalValue, DecimalValue, DecimalValue) {
    (d("1"), d("2"), d("3"), d("4"), d("5"), d("6"))
}

fn facts(closed: Option<&str>, is_long: bool) -> PositionFacts {
    PositionFacts {
        id: 7,
        fund_name: "fund".to_string(),
        order_id: "42".to_string(),
        ordered_price: d("100"),
        state_text: "Closed(TakeProfit)".to_string(),
        closed_reason: closed.map(|r| r.to_string()),
        token_name: "BTC".to_string(),
        open_time_str: "t0".to_string(),
        open_timestamp: 10,
        close_time_str: "t1".to_string(),
        average_open_price: d("100"),
        is_long,
        close_price: d("110"),
        asset_in_usd: d("-100"),
        pnl: d("10"),
        pnl_ratio: d("0.123456"),
        fee: d("0"),
        tick_to_fill: 3,
        readings: PositionReadings {
            price: six(),
            atr: six(),
            rsi: six(),
            last_volume: None,
            last_num_trades: None,
            last_funding_rate: None,
            last_open_interest: None,
            last_oracle_price: None,
            atr_spread: d("0"),
            open_tick_count_max: 1,
            take_profit_ratio: d("0"),
            atr_term: d("0"),
        },
    }
}

#[test]
fn position_log_records() {
    assert!(position_log(false, facts(Some("TakeProfit"), true)).unwrap().is_none());
    assert!(position_log(true, facts(None, true)).unwrap().is_none());
    let log = position_log(true, facts(Some("TakeProfit"), true)).unwrap().unwrap();
    assert_eq!(log.id, Some(7));
    assert_eq!(log.position_type, "Long");
    assert_eq!(log.order_id, "42");
    assert_eq!(log.inputs.len(), 29);
    assert_eq!(v(log.output_1), n("1"));
    assert_eq!(v(log.output_2), n("0.1235"));
    assert_eq!(log.output_3.map(v), Some(n("3")));
    let log = position_log(true, facts(Some("Liquidated"), false)).unwrap().unwrap();
    assert_eq!(log.position_type, "Short");
    assert_eq!(v(log.output_1), n("0"));
}

#[test]
fn main_loop_iteration() {
    let t = 1_000 * NANOS_PER_DAY;
    let state = LoopState {
        phase: LoopPhase::DailyCheck,
        back_test: false,
        last_execution_time: None,
        last_equity: Some(d("100")),
        last_dd_check_time: Some(t - NANOS_PER_HOUR),
    };
    let (state, action) = main_loop_step(state, LoopEvent::Clock(t));
    assert_eq!(action, LoopAction::QueryBalance);
    assert_eq!(state.last_execution_time, Some(t));
    let (state, action) = main_loop_step(state, LoopEvent::Balance(Some(d("104"))));
    assert_eq!(action, LoopAction::RecordDay { pnl: Some(DecimalValue { mantissa: 4, scale: 0 }) });
    assert_eq!(state.last_equity, Some(d("104")));
    assert_eq!(state.phase, LoopPhase::HourlyCheck);
    let (state, action) = main_loop_step(state, LoopEvent::Clock(t + 1));
    assert_eq!(action, LoopAction::RecordInvestedAndCheckDrawdown);
    assert_eq!(state.last_dd_check_time, Some(t + 1));
    let (state, action) = main_loop_step(state, LoopEvent::Drawdown(None));
    assert_eq!(action, LoopAction::RecordErrorAndRunRound);
    let (state, action) = main_loop_step(state, LoopEvent::RoundEnded(FindOutcome::Done));
    assert_eq!(action, LoopAction::ClearErrorsAndSleep);
    assert_eq!(state.phase, LoopPhase::DailyCheck);
    // an hour later: nothing daily, the draw-down check is not yet due
    let (state, action) = main_loop_step(state, LoopEvent::Clock(t + 10));
    assert_eq!(action, LoopAction::ReadClock);
    let (state, action) = main_loop_step(state, LoopEvent::Clock(t + 20));
    assert_eq!(action, LoopAction::RunRound);
    let (state, action) = main_loop_step(state, LoopEvent::RoundEnded(FindOutcome::BackTestFinished));
    assert_eq!(action, LoopAction::Exit);
    assert_eq!(state.phase, LoopPhase::Stopped);
    let (_, action) = main_loop_step(state, LoopEvent::Clock(t));
    assert_eq!(action, LoopAction::Nothing);
}

#[test]
fn drawdown_stops_the_loop() {
    let state = LoopState {
        phase: LoopPhase::AwaitDrawdown,
        back_test: false,
        last_execution_time: None,
        last_equity: None,
        last_dd_check_time: None,
    };
    let (state, action) = main_loop_step(state, LoopEvent::Drawdown(Some(true)));
    assert_eq!(action, LoopAction::LiquidateAndStop);
    assert_eq!(state.phase, LoopPhase::Stopped);
}

#[test]
fn price_points_are_bounded() {
    let mut points: Vec<TimedPoint<u32>> = Vec::new();
    let p = add_price_point(&mut points, 10, Some(100), 0, 2);
    assert_eq!(p.relative_timestamp, None);
    let p = add_price_point(&mut points, 11, None, 160, 2);
    assert_eq!(p.timestamp, 160);
    assert_eq!(p.relative_timestamp, Some(60));
    let p = add_price_point(&mut points, 12, Some(200), 0, 2);
    assert_eq!(p.relative_timestamp, Some(40));
    assert_eq!(points.len(), 2);
    assert_eq!(points[0].price, 11);
    assert_eq!(points[1].price, 12);
    let mut one: Vec<TimedPoint<u32>> = Vec::new();
    add_price_point(&mut one, 1, Some(5), 0, 1);
    let p = add_price_point(&mut one, 2, Some(9), 0, 1);
    assert_eq!(p.relative_timestamp, None);
    assert_eq!(one.len(), 1);
}

#[test]
fn traders_and_styles() {
    let traders = trader_config::get(Some(TradingStrategy::RandomWalk(TrendType::Unknown)), "hyperliquid");
    assert_eq!(traders.len(), 1);
    assert_eq!(traders[0].0, 1440);
    assert_eq!(traders[0].2, "hyperliquid");
    assert!(trader_config::get(Some(TradingStrategy::MeanReversion(TrendType::Unknown)), "x").is_empty());
    assert!(trader_config::get(None, "x").is_empty());
    assert_eq!(trading_style(0), TradingStyle::Day);
    assert_eq!(trading_style(1), TradingStyle::Swing);
    let symbols = vec!["BTC".to_string(), "ETH".to_string()];
    assert!(is_token_listed(&"ETH".to_string(), &symbols));
    assert!(!is_token_listed(&"SOL".to_string(), &symbols));
}
