use debot::error_manager::{error_duration_exceeded, ErrorTimer};
use debot::trade::fund_config::{
    amount_per_strategy, fund_settings, get, SampleTerm, TradingStrategy, TrendType,
};
use debot::decimal::DecimalValue;
use debot::trade::trade_position::{should_close, PriceSignals, ReasonForSell};
use debot::trade::trend_value::{SlopeReading, Trend, TrendState};
use rust_decimal::Decimal;

fn signals(take_profit: bool, below_cut_loss: bool, above_average_buy: bool) -> PriceSignals {
    PriceSignals { take_profit, below_cut_loss, above_average_buy, take_profit_below_cut_loss: false }
}

#[test]
fn close_reasons() {
    assert_eq!(should_close(signals(true, true, false), 0, 0, 10), Some(ReasonForSell::TakeProfit));
    assert_eq!(should_close(signals(false, true, true), 0, 0, 10), Some(ReasonForSell::TakeProfit));
    assert_eq!(should_close(signals(false, true, false), 0, 0, 10), Some(ReasonForSell::CutLoss));
    assert_eq!(should_close(signals(false, false, true), 5, 0, 10), None);
    assert_eq!(should_close(signals(false, false, true), 15, 0, 10), Some(ReasonForSell::TakeProfit));
    assert_eq!(should_close(signals(false, false, false), 15, 0, 10), None);
    assert_eq!(should_close(signals(false, false, false), 21, 0, 10), Some(ReasonForSell::Expired));
    let inverted = PriceSignals {
        take_profit: false,
        below_cut_loss: false,
        above_average_buy: true,
        take_profit_below_cut_loss: true,
    };
    assert_eq!(should_close(inverted, 100, 0, 10), None);
}

#[test]
fn trend_follows_strong_readings_and_fades_after_ten_weak_ones() {
    let mut state = TrendState::new();
    assert_eq!(state.is_up(SlopeReading::Unavailable), Trend::Stay);
    assert_eq!(state.is_up(SlopeReading::Strong { rising: true }), Trend::Rise);
    for _ in 0..9 {
        assert_eq!(state.is_up(SlopeReading::Weak), Trend::Rise);
    }
    assert_eq!(state.is_up(SlopeReading::Weak), Trend::Stay);
    assert_eq!(state.consecutive_below_threshold, 10);
    assert_eq!(state.last_trend, Trend::Rise);
    assert_eq!(state.is_up(SlopeReading::Strong { rising: false }), Trend::Fall);
    assert_eq!(state.consecutive_below_threshold, 0);
    assert_eq!(Trend::default(), Trend::Stay);
}

#[test]
fn error_timer_runs_between_save_and_reset() {
    let mut timer = ErrorTimer::new();
    assert!(!timer.has_error_duration_passed(0));
    timer.save_first_error_time();
    let start = std::time::Instant::now();
    while start.elapsed().as_nanos() < 2_000 {}
    assert!(timer.has_error_duration_passed(1));
    assert!(!timer.has_error_duration_passed(u128::MAX));
    timer.reset_error_time();
    assert!(!timer.has_error_duration_passed(0));
    assert!(error_duration_exceeded(Some(11), 10));
    assert!(!error_duration_exceeded(Some(10), 10));
    assert!(!error_duration_exceeded(None, 0));
}

fn to_decimal(d: DecimalValue) -> Decimal {
    Decimal::from_i128_with_scale(d.mantissa, d.scale)
}

#[test]
fn fund_settings_for_mean_reversion() {
    let amount = DecimalValue { mantissa: 5, scale: 0 };
    let strategy = TradingStrategy::MeanReversion(TrendType::Up);
    let settings = fund_settings("hyperliquid", strategy, amount);
    // 3 ATR terms x 6 take-profit ratios x 3 spreads x 4 lifetimes
    assert_eq!(settings.len(), 216);
    let first = &settings[0];
    assert_eq!(first.0, "BTC-USD");
    assert_eq!(first.1, strategy);
    assert_eq!(first.2, amount);
    assert_eq!(to_decimal(first.3), Decimal::new(8, 1));
    assert_eq!(to_decimal(first.4), Decimal::ONE);
    assert_eq!(first.5.map(to_decimal), Some(Decimal::new(5, 3)));
    assert_eq!(first.6.map(to_decimal), Some(Decimal::new(200, 3)));
    assert_eq!(first.7, SampleTerm::TradingTerm);
    assert_eq!(first.8, 3);
    assert_eq!(settings[1].8, 6);
    assert_eq!(settings[4].6.map(to_decimal), Some(Decimal::new(400, 3)));
    assert_eq!(settings[12].5.map(to_decimal), Some(Decimal::new(75, 4)));
    assert_eq!(settings[72].7, SampleTerm::ShortTerm);
    assert_eq!(settings[215].7, SampleTerm::LongTerm);
    assert_eq!(settings[215].8, 24);
}

#[test]
fn fund_settings_counts_per_strategy() {
    let amount = DecimalValue { mantissa: 0, scale: 0 };
    let random = fund_settings("hyperliquid", TradingStrategy::RandomWalk(TrendType::Down), amount);
    assert_eq!(random.len(), 3 * 8 * 11 * 4);
    assert_eq!(random[0].6, None);
    let trend = fund_settings("hyperliquid", TradingStrategy::TrendFollow(TrendType::Up), amount);
    assert_eq!(trend.len(), 3 * 6 * 1 * 4);
    assert!(trend.iter().all(|s| s.6.is_none()));
}

#[test]
fn amount_is_shared_evenly() {
    let initial = DecimalValue { mantissa: 1000, scale: 0 };
    let share = amount_per_strategy(initial, 3, 4).unwrap();
    assert_eq!(to_decimal(share), Decimal::new(750, 0));
    let share = amount_per_strategy(initial, 2, 3).unwrap();
    assert_eq!(to_decimal(share), Decimal::new(2000, 0) / Decimal::new(3, 0));
    assert_eq!(amount_per_strategy(initial, 2, 0), None);
}

#[test]
fn get_shares_the_initial_amount() {
    let initial = DecimalValue { mantissa: 21600, scale: 0 };
    let strategy = TradingStrategy::MeanReversion(TrendType::Down);
    let settings = get("hyperliquid", strategy, 2, initial).unwrap();
    assert_eq!(settings.len(), 216);
    for s in &settings {
        assert_eq!(to_decimal(s.2), Decimal::new(200, 0));
        assert_eq!(s.1, strategy);
    }
}
