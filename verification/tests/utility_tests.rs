use debot::arbitrage::find_index;
use debot::arbitrage::price_history::push_with_limit;
use debot::config::{bool_from_env_value, max_price_size, HyperliquidConfig};
use debot::main_loop::{is_interval_exceeded, sleep_duration_nanos, update_max_elapsed};
use debot::token::BlockChain;
use debot::trade::derivative_trader::SampleInterval;
use debot::trade::forecast_trader::TradingPeriod;
use debot::trade::transaction_log::last_item_id;
use debot::trade::trend_value::push_keeping_period;
use debot::trade::AppState;
use debot::utils::{DateTimeUtils, ToDateTimeString};

#[test]
fn find_index_returns_first_match() {
    let list = [3, 8, 5, 8];
    assert_eq!(find_index(&list, |x| *x == 8), Some(1));
    assert_eq!(find_index(&list, |x| *x > 4), Some(1));
    assert_eq!(find_index(&list, |x| *x == 7), None);
    let empty: [u32; 0] = [];
    assert_eq!(find_index(&empty, |_| true), None);
}

#[test]
fn trade_find_index_is_the_same_search() {
    let names = vec!["PancakeSwap".to_string(), "BiSwap".to_string()];
    assert_eq!(debot::trade::find_index(&names, |n| n == "BiSwap"), Some(1));
}

#[test]
fn history_keeps_at_most_max_size() {
    let mut history = vec![1, 2, 3];
    push_with_limit(&mut history, 4, 3);
    assert_eq!(history, vec![2, 3, 4]);
    push_with_limit(&mut history, 5, 5);
    assert_eq!(history, vec![2, 3, 4, 5]);
}

#[test]
fn window_drops_oldest_when_full() {
    let mut window = vec![1, 2, 3, 4];
    push_keeping_period(&mut window, 9, 2);
    assert_eq!(window, vec![2, 3, 4, 9]);
    let mut window = vec![1];
    push_keeping_period(&mut window, 2, 3);
    assert_eq!(window, vec![1, 2]);
}

#[test]
fn timestamp_is_written_as_utc_date_and_time() {
    assert_eq!(0i64.to_datetime_string(), "1970-01-01 00:00:00");
    assert_eq!(1_700_000_000i64.to_datetime_string(), "2023-11-14 22:13:20");
    assert_eq!((-1i64).to_datetime_string(), "1969-12-31 23:59:59");
}

#[test]
fn current_datetime_has_the_documented_shape() {
    let now = DateTimeUtils::get_current_datetime_string();
    assert_eq!(now.len(), 19);
    assert_eq!(&now[4..5], "-");
    assert_eq!(&now[10..11], " ");
    let today = DateTimeUtils::get_current_date_string();
    assert_eq!(today.len(), 10);
}

#[test]
fn bool_setting_parsing() {
    assert!(bool_from_env_value(Some("TRUE"), false));
    assert!(bool_from_env_value(Some("true"), false));
    assert!(bool_from_env_value(Some("1"), false));
    assert!(!bool_from_env_value(Some("yes"), true));
    assert!(!bool_from_env_value(Some(""), true));
    assert!(bool_from_env_value(None, true));
    assert!(!bool_from_env_value(None, false));
}

#[test]
fn price_size_from_hours() {
    assert_eq!(max_price_size(1, 60), 60);
    assert_eq!(max_price_size(2, 7), 1028);
    // the interval is truncated to 32 bits first
    assert_eq!(max_price_size(1, (1i64 << 32) + 60), 60);
}

#[test]
fn loop_timing_decisions() {
    assert_eq!(update_max_elapsed(100, 300), (200, true));
    assert_eq!(update_max_elapsed(300, 100), (200, false));
    assert_eq!(update_max_elapsed(100, 100), (100, false));
    assert!(is_interval_exceeded(61, 60));
    assert!(!is_interval_exceeded(60, 60));
    assert_eq!(sleep_duration_nanos(false, 60, 1_000_000_000), 59_000_000_000);
    assert_eq!(sleep_duration_nanos(false, 60, 61_000_000_000), 0);
    assert_eq!(sleep_duration_nanos(true, 60, 0), 0);
}

#[test]
fn sample_interval_periods() {
    let interval = SampleInterval::new(12 * 60, 26 * 60);
    assert_eq!(interval.trade_periods(24 * 60, 60), (720, 1560, 1440));
    assert_eq!(interval.trade_periods(24 * 60, 7), (6171, 13371, 12342));
}

#[test]
fn trading_period_ticks() {
    let period = TradingPeriod::new(1, 4, 24);
    assert_eq!(period.trade_periods(300), (12, 48, 288));
}

#[test]
fn block_chain_ids() {
    assert_eq!(BlockChain::BscChain { chain_id: 56 }.block_chain_id(), 56);
    assert_eq!(BlockChain::PolygonChain { chain_id: 137 }.block_chain_id(), 137);
}

#[test]
fn hyperliquid_config_holds_credentials() {
    let config = HyperliquidConfig {
        agent_private_key: "SECRET-REDACTED".to_string(),
        evm_wallet_address: "0xabc".to_string(),
        vault_address: None,
    };
    assert_eq!(config.evm_wallet_address, "0xabc");
    assert!(config.vault_address.is_none());
}

#[test]
fn app_state_defaults_and_records() {
    let mut state = AppState::default();
    assert_eq!(state.id, 1);
    assert!(state.last_execution_time.is_none());
    assert!(state.liquidated_time.is_empty());
    state.record(None, Some("2024-01-01 00:00:00".to_string()));
    assert_eq!(state.liquidated_time, vec!["2024-01-01 00:00:00".to_string()]);
    let now = std::time::SystemTime::now();
    state.record(Some(now), None);
    assert_eq!(state.last_execution_time, Some(now));
    state.record(None, None);
    assert_eq!(state.last_execution_time, Some(now));
    state.record_now(None, true);
    assert_eq!(state.liquidated_time.len(), 2);
    assert_eq!(state.liquidated_time[1].len(), 19);
    state.record_now(None, false);
    assert_eq!(state.liquidated_time.len(), 2);
}

#[test]
fn last_item_id_of_stored_items() {
    assert_eq!(last_item_id(&vec![]), 0);
    assert_eq!(last_item_id(&vec![Some(3), Some(7)]), 7);
    assert_eq!(last_item_id(&vec![Some(3), None]), 0);
}
