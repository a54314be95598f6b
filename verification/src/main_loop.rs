use vstd::prelude::*;

use crate::decimal::{dec, decimal_difference, is_valid_decimal, minus, DecimalOverflow, DecimalValue};

verus! {

/// The number of nanoseconds in a second.
pub const NANOS_PER_SEC: u128 = 1_000_000_000;

/// The running estimate of the longest loop time: the average of the previous
/// maximum and this loop's time, in milliseconds, and whether that average is a
/// new maximum.
pub fn update_max_elapsed(max_elapsed_millis: u64, elapsed_millis: u64) -> (res: (u64, bool))
    requires
        max_elapsed_millis + elapsed_millis <= u64::MAX,
    ensures
        res.0 == (max_elapsed_millis + elapsed_millis) / 2,
        res.1 == (res.0 > max_elapsed_millis),
{
    let average = (max_elapsed_millis + elapsed_millis) / 2;
    (average, average > max_elapsed_millis)
}

/// Whether a loop that took `elapsed_secs` whole seconds overran the interval.
pub fn is_interval_exceeded(elapsed_secs: u64, interval_secs: i64) -> (exceeded: bool)
    requires
        interval_secs >= 0,
    ensures
        exceeded == (elapsed_secs > interval_secs),
{
    elapsed_secs > interval_secs as u64
}

/// How long to sleep before the next loop, in nanoseconds: nothing in a back
/// test; otherwise what is left of the interval after the loop's own time, or
/// nothing when the loop took the whole interval or more.
pub fn sleep_duration_nanos(back_test: bool, interval_secs: i64, elapsed_nanos: u128) -> (sleep: u128)
    requires
        interval_secs >= 0,
    ensures
        sleep == (if back_test || elapsed_nanos >= interval_secs * NANOS_PER_SEC {
            0
        } else {
            interval_secs * NANOS_PER_SEC - elapsed_nanos
        }),
{
    if back_test {
        return 0;
    }
    let interval_nanos = interval_secs as u128 * NANOS_PER_SEC;
    if elapsed_nanos >= interval_nanos {
        0
    } else {
        interval_nanos - elapsed_nanos
    }
}

/// How a round of looking for trade chances ended.
#[derive(Clone, Copy, Debug, PartialEq, Eq, Structural)]
pub enum FindOutcome {
    /// The round went through.
    Done,
    /// The back-test data ran out (an input/output error of kind `InvalidData`).
    BackTestFinished,
    /// Any other error.
    Failed,
}

/// What the trading loop does next.
#[derive(Clone, Copy, Debug, PartialEq, Eq, Structural)]
pub enum TraderAction {
    /// Stop the loop.
    Stop,
    /// Carry on; errors are over.
    ClearErrors,
    /// Carry on after timing the error and reconnecting to the exchange.
    RecordErrorAndReconnect,
}

/// The decision after a round of the trading loop: carry on after a good
/// round, stop when the back test is over, and time the error and reconnect
/// after any other failure.
pub fn trader_action(outcome: FindOutcome) -> (action: TraderAction)
    ensures
        action == match outcome {
            FindOutcome::Done => TraderAction::ClearErrors,
            FindOutcome::BackTestFinished => TraderAction::Stop,
            FindOutcome::Failed => TraderAction::RecordErrorAndReconnect,
        },
{
    match outcome {
        FindOutcome::Done => TraderAction::ClearErrors,
        FindOutcome::BackTestFinished => TraderAction::Stop,
        FindOutcome::Failed => TraderAction::RecordErrorAndReconnect,
    }
}


/// The number of nanoseconds in a day.
pub const NANOS_PER_DAY: u128 = 86_400_000_000_000;

/// The number of nanoseconds in an hour.
pub const NANOS_PER_HOUR: u128 = 3_600_000_000_000;

/// Whether the daily bookkeeping is due at `now` (nanoseconds since the epoch):
/// never in a back test; when it never ran; otherwise when more than a day has
/// passed since it last ran (`last`), and never while the clock reads earlier
/// than `last`.
pub fn is_daily_due(back_test: bool, last: Option<u128>, now: u128) -> (due: bool)
    ensures
        due == (!back_test && match last {
            None => true,
            Some(t) => now >= t && now - t > NANOS_PER_DAY,
        }),
{
    if back_test {
        return false;
    }
    match last {
        None => true,
        Some(t) => now >= t && now - t > NANOS_PER_DAY,
    }
}

/// Whether the hourly draw-down check is due at `now`: never in a back test;
/// when it never ran; otherwise once at least an hour (in whole seconds) has
/// passed since it last ran, and never while the clock reads earlier than
/// `last`.
pub fn is_hourly_due(back_test: bool, last: Option<u128>, now: u128) -> (due: bool)
    ensures
        due == (!back_test && match last {
            None => true,
            Some(t) => now >= t && (now - t) / (NANOS_PER_SEC as int) >= 3600,
        }),
{
    if back_test {
        return false;
    }
    match last {
        None => true,
        Some(t) => now >= t && (now - t) / NANOS_PER_SEC >= 3600,
    }
}

/// The day's profit and the equity to remember: with a balance, the balance
/// minus the remembered equity (zero when none is remembered), and the balance;
/// without one (the query failed), nothing is logged and the remembered equity
/// stays.
pub fn daily_pnl(balance: Option<DecimalValue>, last_equity: Option<DecimalValue>) -> (pnl: Result<
    Option<(DecimalValue, DecimalValue)>,
    DecimalOverflow,
>)
    requires
        balance matches Some(b) ==> is_valid_decimal(b),
        last_equity matches Some(e) ==> is_valid_decimal(e),
    ensures
        pnl == match balance {
            None => Ok(None),
            Some(b) => match last_equity {
                Some(e) => match decimal_difference(b, e) {
                    Some(d) => Ok(Some((d, b))),
                    None => Err(DecimalOverflow),
                },
                None => Ok(Some((dec(0, 0), b))),
            },
        },
{
    match balance {
        None => Ok(None),
        Some(b) => match last_equity {
            Some(e) => Ok(Some((minus(b, e)?, b))),
            None => Ok(Some((DecimalValue { mantissa: 0, scale: 0 }, b))),
        },
    }
}

/// What the loop does after the draw-down check.
#[derive(Clone, Copy, Debug, PartialEq, Eq, Structural)]
pub enum DrawdownAction {
    /// Carry on.
    Continue,
    /// Liquidate everything, record the circuit break, report it and stop.
    LiquidateAndStop,
    /// Time the error and reconnect to the exchange, then carry on.
    RecordErrorAndReconnect,
}

/// The answer to the draw-down check (`None` when the balance could not be
/// read): a draw-down beyond the limit stops the loop after liquidating; a
/// failed check is timed as an error.
pub fn drawdown_action(occurred: Option<bool>) -> (action: DrawdownAction)
    ensures
        action == match occurred {
            Some(true) => DrawdownAction::LiquidateAndStop,
            Some(false) => DrawdownAction::Continue,
            None => DrawdownAction::RecordErrorAndReconnect,
        },
{
    match occurred {
        Some(true) => DrawdownAction::LiquidateAndStop,
        Some(false) => DrawdownAction::Continue,
        None => DrawdownAction::RecordErrorAndReconnect,
    }
}


/// Where an iteration of the main loop stands.
#[derive(Clone, Copy, Debug, PartialEq, Eq, Structural)]
pub enum LoopPhase {
    /// Waiting for the clock to decide on the daily bookkeeping.
    DailyCheck,
    /// Waiting for the balance.
    AwaitBalance,
    /// Waiting for the clock to decide on the hourly draw-down check.
    HourlyCheck,
    /// Waiting for the draw-down check.
    AwaitDrawdown,
    /// Waiting for the trading round to end.
    Trading,
    /// The loop has ended.
    Stopped,
}

/// The state of the main loop.
#[derive(Clone, Copy, Debug, PartialEq, Eq, Structural)]
pub struct LoopState {
    pub phase: LoopPhase,
    pub back_test: bool,
    /// When the daily bookkeeping last ran (nanoseconds since the epoch).
    pub last_execution_time: Option<u128>,
    /// The equity remembered at the last daily bookkeeping.
    pub last_equity: Option<DecimalValue>,
    /// When the draw-down was last checked.
    pub last_dd_check_time: Option<u128>,
}

/// What the outside world reports to the loop.
#[derive(Clone, Copy, Debug, PartialEq, Eq, Structural)]
pub enum LoopEvent {
    /// The clock reads this many nanoseconds since the epoch.
    Clock(u128),
    /// The balance (none when it could not be read).
    Balance(Option<DecimalValue>),
    /// The draw-down check (none when it failed).
    Drawdown(Option<bool>),
    /// The trading round ended so.
    RoundEnded(FindOutcome),
}

/// What the loop asks the outside world to do.
#[derive(Clone, Copy, Debug, PartialEq, Eq, Structural)]
pub enum LoopAction {
    /// Read the balance.
    QueryBalance,
    /// Log the day's profit (when there is one) and the application state (the
    /// new last execution time and equity, and the invested amount); then read
    /// the clock.
    RecordDay { pnl: Option<DecimalValue> },
    /// Read the clock.
    ReadClock,
    /// Log the invested amount and check the draw-down.
    RecordInvestedAndCheckDrawdown,
    /// Liquidate everything, record the circuit break, report it and stop.
    LiquidateAndStop,
    /// Run a trading round.
    RunRound,
    /// Time the error, reconnect to the exchange, then run a trading round.
    RecordErrorAndRunRound,
    /// Leave the loop (liquidating first when so configured).
    Exit,
    /// Clear the error time, then sleep until the next iteration.
    ClearErrorsAndSleep,
    /// Time the error and reconnect to the exchange, then sleep until the next
    /// iteration.
    RecordErrorAndSleep,
    /// rust_decimal overflowed computing the day's profit: stop.
    Abort,
    /// Nothing: the event does not fit the phase.
    Nothing,
}

/// The next state of the main loop and what to do, given what was reported.
/// An iteration first decides on the daily bookkeeping (see [`is_daily_due`]):
/// when it is due, it remembers the time, reads the balance and records the
/// day's profit and the new equity (see [`daily_pnl`]). Then it decides on the
/// hourly draw-down check (see [`is_hourly_due`]): when due, it remembers the
/// time and acts on the check's answer (see [`drawdown_action`]). Then it runs a
/// round and acts on its end (see [`trader_action`]), starting over unless it
/// stops. An event that does not fit the phase changes nothing.
pub open spec fn loop_step_for(state: LoopState, event: LoopEvent) -> (LoopState, LoopAction) {
    match (state.phase, event) {
        (LoopPhase::DailyCheck, LoopEvent::Clock(now)) => if !state.back_test && match state.last_execution_time {
            None => true,
            Some(t) => now >= t && now - t > NANOS_PER_DAY,
        } {
            (
                LoopState { phase: LoopPhase::AwaitBalance, last_execution_time: Some(now), ..state },
                LoopAction::QueryBalance,
            )
        } else {
            (LoopState { phase: LoopPhase::HourlyCheck, ..state }, LoopAction::ReadClock)
        },
        (LoopPhase::AwaitBalance, LoopEvent::Balance(balance)) => match balance {
            None => (LoopState { phase: LoopPhase::HourlyCheck, ..state }, LoopAction::RecordDay { pnl: None }),
            Some(b) => match state.last_equity {
                None => (
                    LoopState { phase: LoopPhase::HourlyCheck, last_equity: Some(b), ..state },
                    LoopAction::RecordDay { pnl: Some(dec(0, 0)) },
                ),
                Some(e) => match decimal_difference(b, e) {
                    Some(d) => (
                        LoopState { phase: LoopPhase::HourlyCheck, last_equity: Some(b), ..state },
                        LoopAction::RecordDay { pnl: Some(d) },
                    ),
                    None => (LoopState { phase: LoopPhase::Stopped, ..state }, LoopAction::Abort),
                },
            },
        },
        (LoopPhase::HourlyCheck, LoopEvent::Clock(now)) => if !state.back_test && match state.last_dd_check_time {
            None => true,
            Some(t) => now >= t && (now - t) / (NANOS_PER_SEC as int) >= 3600,
        } {
            (
                LoopState { phase: LoopPhase::AwaitDrawdown, last_dd_check_time: Some(now), ..state },
                LoopAction::RecordInvestedAndCheckDrawdown,
            )
        } else {
            (LoopState { phase: LoopPhase::Trading, ..state }, LoopAction::RunRound)
        },
        (LoopPhase::AwaitDrawdown, LoopEvent::Drawdown(occurred)) => match occurred {
            Some(true) => (LoopState { phase: LoopPhase::Stopped, ..state }, LoopAction::LiquidateAndStop),
            Some(false) => (LoopState { phase: LoopPhase::Trading, ..state }, LoopAction::RunRound),
            None => (LoopState { phase: LoopPhase::Trading, ..state }, LoopAction::RecordErrorAndRunRound),
        },
        (LoopPhase::Trading, LoopEvent::RoundEnded(outcome)) => match outcome {
            FindOutcome::Done => (LoopState { phase: LoopPhase::DailyCheck, ..state }, LoopAction::ClearErrorsAndSleep),
            FindOutcome::BackTestFinished => (LoopState { phase: LoopPhase::Stopped, ..state }, LoopAction::Exit),
            FindOutcome::Failed => (LoopState { phase: LoopPhase::DailyCheck, ..state }, LoopAction::RecordErrorAndSleep),
        },
        _ => (state, LoopAction::Nothing),
    }
}

/// One step of the main loop (see [`loop_step_for`]).
pub fn main_loop_step(state: LoopState, event: LoopEvent) -> (next: (LoopState, LoopAction))
    requires
        state.last_equity matches Some(e) ==> is_valid_decimal(e),
        event matches LoopEvent::Balance(Some(b)) ==> is_valid_decimal(b),
    ensures
        next == loop_step_for(state, event),
        next.0.last_equity matches Some(e) ==> is_valid_decimal(e),
{
    match (state.phase, event) {
        (LoopPhase::DailyCheck, LoopEvent::Clock(now)) => {
            if is_daily_due(state.back_test, state.last_execution_time, now) {
                (
                    LoopState { phase: LoopPhase::AwaitBalance, last_execution_time: Some(now), ..state },
                    LoopAction::QueryBalance,
                )
            } else {
                (LoopState { phase: LoopPhase::HourlyCheck, ..state }, LoopAction::ReadClock)
            }
        },
        (LoopPhase::AwaitBalance, LoopEvent::Balance(balance)) => match daily_pnl(balance, state.last_equity) {
            Ok(None) => (LoopState { phase: LoopPhase::HourlyCheck, ..state }, LoopAction::RecordDay { pnl: None }),
            Ok(Some((pnl, equity))) => (
                LoopState { phase: LoopPhase::HourlyCheck, last_equity: Some(equity), ..state },
                LoopAction::RecordDay { pnl: Some(pnl) },
            ),
            Err(_) => (LoopState { phase: LoopPhase::Stopped, ..state }, LoopAction::Abort),
        },
        (LoopPhase::HourlyCheck, LoopEvent::Clock(now)) => {
            if is_hourly_due(state.back_test, state.last_dd_check_time, now) {
                (
                    LoopState { phase: LoopPhase::AwaitDrawdown, last_dd_check_time: Some(now), ..state },
                    LoopAction::RecordInvestedAndCheckDrawdown,
                )
            } else {
                (LoopState { phase: LoopPhase::Trading, ..state }, LoopAction::RunRound)
            }
        },
        (LoopPhase::AwaitDrawdown, LoopEvent::Drawdown(occurred)) => match drawdown_action(occurred) {
            DrawdownAction::LiquidateAndStop => (
                LoopState { phase: LoopPhase::Stopped, ..state },
                LoopAction::LiquidateAndStop,
            ),
            DrawdownAction::Continue => (LoopState { phase: LoopPhase::Trading, ..state }, LoopAction::RunRound),
            DrawdownAction::RecordErrorAndReconnect => (
                LoopState { phase: LoopPhase::Trading, ..state },
                LoopAction::RecordErrorAndRunRound,
            ),
        },
        (LoopPhase::Trading, LoopEvent::RoundEnded(outcome)) => match trader_action(outcome) {
            TraderAction::ClearErrors => (
                LoopState { phase: LoopPhase::DailyCheck, ..state },
                LoopAction::ClearErrorsAndSleep,
            ),
            TraderAction::Stop => (LoopState { phase: LoopPhase::Stopped, ..state }, LoopAction::Exit),
            TraderAction::RecordErrorAndReconnect => (
                LoopState { phase: LoopPhase::DailyCheck, ..state },
                LoopAction::RecordErrorAndSleep,
            ),
        },
        _ => (state, LoopAction::Nothing),
    }
}


/// A round that ends keeps the loop going unless the back-test data ran out:
/// after a failed round the error is timed and the client reset, after a good
/// one the errors are cleared, and either way the next iteration starts with the
/// daily check; running out of back-test data stops the loop. Nothing else of
/// the state changes.
pub proof fn lemma_round_end_decides_loop(state: LoopState)
    requires
        state.phase == LoopPhase::Trading,
    ensures
        loop_step_for(state, LoopEvent::RoundEnded(FindOutcome::Failed)) == (
            LoopState { phase: LoopPhase::DailyCheck, ..state },
            LoopAction::RecordErrorAndSleep,
        ),
        loop_step_for(state, LoopEvent::RoundEnded(FindOutcome::Done)) == (
            LoopState { phase: LoopPhase::DailyCheck, ..state },
            LoopAction::ClearErrorsAndSleep,
        ),
        loop_step_for(state, LoopEvent::RoundEnded(FindOutcome::BackTestFinished)) == (
            LoopState { phase: LoopPhase::Stopped, ..state },
            LoopAction::Exit,
        ),
{
}

/// The loop stops only when the back-test data runs out, on a draw-down beyond
/// the limit, or when rust_decimal overflows computing the day's profit; once
/// stopped it stays stopped and asks for nothing.
pub proof fn lemma_loop_stops_only_for_cause(state: LoopState, event: LoopEvent)
    ensures
        state.phase != LoopPhase::Stopped && loop_step_for(state, event).0.phase == LoopPhase::Stopped ==> {
            ||| state.phase == LoopPhase::Trading && event == LoopEvent::RoundEnded(FindOutcome::BackTestFinished)
            ||| state.phase == LoopPhase::AwaitDrawdown && event == LoopEvent::Drawdown(Some(true))
            ||| state.phase == LoopPhase::AwaitBalance && (event matches LoopEvent::Balance(Some(b))
                && state.last_equity matches Some(e) && decimal_difference(b, e) is None)
        },
        state.phase == LoopPhase::Stopped ==> loop_step_for(state, event) == (state, LoopAction::Nothing),
{
}

/// In a back test the daily bookkeeping and the draw-down check never run: the
/// clock leads straight to the trading round, and no balance is read.
pub proof fn lemma_back_test_skips_bookkeeping(state: LoopState, now: u128)
    requires
        state.back_test,
    ensures
        state.phase == LoopPhase::DailyCheck ==> loop_step_for(state, LoopEvent::Clock(now)) == (
            LoopState { phase: LoopPhase::HourlyCheck, ..state },
            LoopAction::ReadClock,
        ),
        state.phase == LoopPhase::HourlyCheck ==> loop_step_for(state, LoopEvent::Clock(now)) == (
            LoopState { phase: LoopPhase::Trading, ..state },
            LoopAction::RunRound,
        ),
{
}

/// The day's profit is the balance minus the remembered equity (zero the first
/// time), and the balance becomes the remembered equity; without a balance
/// nothing is remembered.
pub proof fn lemma_daily_profit(state: LoopState, balance: Option<DecimalValue>)
    requires
        state.phase == LoopPhase::AwaitBalance,
    ensures
        ({
            let (next, action) = loop_step_for(state, LoopEvent::Balance(balance));
            match balance {
                None => next.last_equity == state.last_equity && action == LoopAction::RecordDay { pnl: None },
                Some(b) => match state.last_equity {
                    None => next.last_equity == Some(b) && action == LoopAction::RecordDay { pnl: Some(dec(0, 0)) },
                    Some(e) => decimal_difference(b, e) matches Some(d) ==> next.last_equity == Some(b) && action
                        == LoopAction::RecordDay { pnl: Some(d) },
                },
            }
        }),
{
}


/// Outside a back test the daily bookkeeping runs on the first iteration and
/// then once more than a day has passed since it last ran, remembering when;
/// within a day it is skipped and the state is kept. The draw-down check runs
/// on the first iteration and then once an hour has passed.
pub proof fn lemma_bookkeeping_schedule(state: LoopState, now: u128)
    requires
        !state.back_test,
    ensures
        state.phase == LoopPhase::DailyCheck && state.last_execution_time is None ==> loop_step_for(
            state,
            LoopEvent::Clock(now),
        ) == (
            LoopState { phase: LoopPhase::AwaitBalance, last_execution_time: Some(now), ..state },
            LoopAction::QueryBalance,
        ),
        state.last_execution_time matches Some(t) && (state.phase == LoopPhase::DailyCheck && t <= now && now - t
            > NANOS_PER_DAY) ==> loop_step_for(state, LoopEvent::Clock(now)).1 == LoopAction::QueryBalance,
        state.last_execution_time matches Some(t) && (state.phase == LoopPhase::DailyCheck && t <= now && now - t
            <= NANOS_PER_DAY) ==> loop_step_for(state, LoopEvent::Clock(now)) == (
            LoopState { phase: LoopPhase::HourlyCheck, ..state },
            LoopAction::ReadClock,
        ),
        state.phase == LoopPhase::HourlyCheck && state.last_dd_check_time is None ==> loop_step_for(
            state,
            LoopEvent::Clock(now),
        ) == (
            LoopState { phase: LoopPhase::AwaitDrawdown, last_dd_check_time: Some(now), ..state },
            LoopAction::RecordInvestedAndCheckDrawdown,
        ),
        state.last_dd_check_time matches Some(t) && (state.phase == LoopPhase::HourlyCheck && t <= now && now - t
            >= NANOS_PER_HOUR) ==> loop_step_for(state, LoopEvent::Clock(now)).1
            == LoopAction::RecordInvestedAndCheckDrawdown,
        state.last_dd_check_time matches Some(t) && (state.phase == LoopPhase::HourlyCheck && t <= now && now - t
            < NANOS_PER_HOUR) ==> loop_step_for(state, LoopEvent::Clock(now)).1 == LoopAction::RunRound,
{
    if state.phase == LoopPhase::HourlyCheck {
        if let Some(t) = state.last_dd_check_time {
            if t <= now {
                let d = now - t;
                if d >= NANOS_PER_HOUR {
                    assert(d / (NANOS_PER_SEC as int) >= 3600) by (nonlinear_arith)
                        requires
                            d >= 3_600_000_000_000,
                    ;
                } else {
                    assert(d / (NANOS_PER_SEC as int) < 3600) by (nonlinear_arith)
                        requires
                            0 <= d < 3_600_000_000_000,
                    ;
                }
            }
        }
    }
}

} // verus!
