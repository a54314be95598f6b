use debot::db::{Counter, CounterType};
use debot::trade::TransactionLog;

#[test]
fn counter_wraps_after_max() {
    let mut counter = Counter::new(3, 5, 7, 0, 0, 0);
    assert_eq!(counter.increment(CounterType::Position), 1);
    assert_eq!(counter.increment(CounterType::Position), 2);
    assert_eq!(counter.increment(CounterType::Position), 3);
    assert_eq!(counter.increment(CounterType::Position), 1);
}

#[test]
fn counter_types_are_independent() {
    let mut counter = Counter::new(3, 5, 7, 2, 4, 6);
    assert_eq!(counter.increment(CounterType::Price), 5);
    assert_eq!(counter.increment(CounterType::Balance), 7);
    assert_eq!(counter.increment(CounterType::Position), 3);
    assert_eq!(counter.increment(CounterType::Balance), 1);
    assert_eq!(counter.increment(CounterType::Price), 1);
}

#[test]
fn counter_with_zero_max_always_gives_one() {
    let mut counter = Counter::new(0, 0, 0, 0, 0, 0);
    assert_eq!(counter.increment(CounterType::Position), 1);
    assert_eq!(counter.increment(CounterType::Position), 1);
}

#[test]
fn counter_start_above_max_wraps_by_modulo() {
    let mut counter = Counter::new(10, 10, 10, 25, 0, 0);
    // (25 + 1) % 11 == 4
    assert_eq!(counter.increment(CounterType::Position), 4);
}

#[test]
fn transaction_log_counts_and_names() {
    let mut log = TransactionLog::new(2, 2, 2, 0, 1, 2, "debot-db");
    assert_eq!(log.db_name(), "debot-db");
    assert_eq!(log.increment_counter(CounterType::Position), 1);
    assert_eq!(log.increment_counter(CounterType::Price), 2);
    assert_eq!(log.increment_counter(CounterType::Balance), 1);
    assert_eq!(log.increment_counter(CounterType::Position), 2);
    assert_eq!(log.increment_counter(CounterType::Position), 1);
}
