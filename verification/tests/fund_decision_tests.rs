use debot::decimal::{DecimalOverflow, DecimalValue};
use debot::trade::derivative_trader::{back_test_point, close_order_tick_count_max};
use debot::trade::fund_manager::{
    after_cancel, close_order, decide_close, fill_targets, is_close_candidate, open_step, order_request_price,
    placed_order_price, plan_open_order, CancelResult, CloseCount, CloseSignal, MarketReadings,
    OpenSettings, OpenSignal, OpenStep, OrderSide, PositionPhase, ReasonForClose, WrongTokenAmount,
};
use debot::trade::fund_manager::{FillEffects, FillError, FillOutcome, PositionBook};
use rust_decimal::Decimal;

fn d(s: &str) -> DecimalValue {
    let x: Decimal = s.parse().unwrap();
    DecimalValue { mantissa: x.mantissa(), scale: x.scale() }
}

fn v(x: DecimalValue) -> Decimal {
    Decimal::from_i128_with_scale(x.mantissa, x.scale)
}

fn n(s: &str) -> Decimal {
    s.parse().unwrap()
}

fn settings(spread: Option<&str>, ratio: Option<&str>) -> OpenSettings {
    OpenSettings {
        trading_amount: d("1000"),
        atr_spread: spread.map(d),
        take_profit_ratio: ratio.map(d),
        risk_reward: d("2"),
    }
}

fn readings(atr: &str, atr_of_term: &str) -> MarketReadings {
    MarketReadings { atr: d(atr), atr_of_term: d(atr_of_term) }
}

#[test]
fn open_order_at_own_price_with_trading_amount() {
    let signal = OpenSignal { side: OrderSide::Long, order_price: None, amount_in_usd: None, confidence: d("0.5") };
    let order = plan_open_order(d("100"), signal, settings(Some("0.2"), Some("0.01")), readings("3", "5"), d("10000"))
        .unwrap()
        .unwrap();
    assert_eq!(order.side, OrderSide::Long);
    assert_eq!(v(order.order_price), n("99"));
    assert_eq!(v(order.token_amount), n("1000") / n("99") * n("0.5"));
    assert_eq!(v(order.target_price), n("101"));
}

#[test]
fn open_order_with_signal_amount_and_price() {
    let signal = OpenSignal {
        side: OrderSide::Short,
        order_price: Some(d("105")),
        amount_in_usd: Some(d("4")),
        confidence: d("0.25"),
    };
    let order = plan_open_order(d("100"), signal, settings(None, None), readings("3", "5"), d("10000"))
        .unwrap()
        .unwrap();
    assert_eq!(order.side, OrderSide::Short);
    assert_eq!(v(order.order_price), n("105"));
    assert_eq!(v(order.token_amount), n("1"));
    assert_eq!(v(order.target_price), n("94"));
}

#[test]
fn no_open_order_without_target_or_funds() {
    let signal = OpenSignal { side: OrderSide::Long, order_price: None, amount_in_usd: None, confidence: d("1") };
    assert_eq!(
        plan_open_order(d("100"), signal, settings(None, None), readings("0", "5"), d("10000")).unwrap(),
        None
    );
    assert_eq!(
        plan_open_order(d("100"), signal, settings(None, Some("0.01")), readings("3", "5"), d("1000")).unwrap(),
        None
    );
    assert!(plan_open_order(d("100"), signal, settings(None, Some("0.01")), readings("3", "5"), d("1000.01"))
        .unwrap()
        .is_some());
}

#[test]
fn open_order_at_zero_price_is_refused() {
    let signal = OpenSignal { side: OrderSide::Long, order_price: Some(d("0")), amount_in_usd: None, confidence: d("1") };
    assert_eq!(
        plan_open_order(d("100"), signal, settings(None, Some("0.01")), readings("3", "5"), d("10000")),
        Err(DecimalOverflow)
    );
}

#[test]
fn signals_against_a_position_close_it() {
    let decision = decide_close(CloseSignal::SellClose, Some(d("0.6")), OrderSide::Long, None, false);
    assert_eq!(decision.reason, Some(ReasonForClose::TrendChanged));
    assert_eq!(v(decision.confidence), n("0.6"));
    assert!(decision.cancel_all_orders);
    assert_eq!(decision.counted, Some(CloseCount::TrendChanged));

    let decision = decide_close(CloseSignal::BuyTrim, None, OrderSide::Short, None, false);
    assert_eq!(decision.reason, Some(ReasonForClose::TrimPosition));
    assert_eq!(v(decision.confidence), n("0"));
    assert_eq!(decision.counted, Some(CloseCount::Trim));
}

#[test]
fn positions_close_on_their_own_limits_or_expire() {
    let decision = decide_close(CloseSignal::BuyClose, Some(d("0.6")), OrderSide::Long, Some(ReasonForClose::TakeProfit), true);
    assert_eq!(decision.reason, Some(ReasonForClose::TakeProfit));
    assert_eq!(v(decision.confidence), n("1"));
    assert!(!decision.cancel_all_orders);
    assert_eq!(decision.counted, Some(CloseCount::TakeProfit));

    let decision = decide_close(CloseSignal::Hold, None, OrderSide::Short, Some(ReasonForClose::CutLoss), false);
    assert_eq!(decision.counted, Some(CloseCount::CutLoss));

    let decision = decide_close(CloseSignal::Hold, None, OrderSide::Short, None, true);
    assert_eq!(decision.reason, Some(ReasonForClose::Expired));
    assert_eq!(decision.counted, Some(CloseCount::Expired));

    let decision = decide_close(CloseSignal::Hold, None, OrderSide::Short, None, false);
    assert_eq!(decision.reason, None);
    assert_eq!(decision.counted, None);
}

#[test]
fn close_orders_trade_against_the_position() {
    let decision = decide_close(CloseSignal::SellClose, Some(d("0.5")), OrderSide::Long, None, false);
    let (side, amount) = close_order(OrderSide::Long, d("-3"), decision).unwrap().unwrap();
    assert_eq!(side, OrderSide::Short);
    assert_eq!(v(amount), n("1.5"));
    let keep = decide_close(CloseSignal::Hold, None, OrderSide::Long, None, false);
    assert_eq!(close_order(OrderSide::Long, d("3"), keep).unwrap(), None);
}

#[test]
fn market_or_limit_requests() {
    assert_eq!(order_request_price(d("0"), d("10"), None, false), Err(WrongTokenAmount));
    assert_eq!(order_request_price(d("-1"), d("10"), None, true), Err(WrongTokenAmount));
    assert_eq!(order_request_price(d("1"), d("10"), None, true), Ok(None));
    assert_eq!(order_request_price(d("1"), d("10"), Some(ReasonForClose::CutLoss), true), Ok(None));
    assert_eq!(order_request_price(d("1"), d("10"), Some(ReasonForClose::TakeProfit), true), Ok(Some(d("10"))));
    assert_eq!(order_request_price(d("1"), d("10"), None, false), Ok(Some(d("10"))));
}

#[test]
fn placed_orders() {
    assert_eq!(placed_order_price(d("0"), d("10")), None);
    assert_eq!(placed_order_price(d("2"), d("0")), Some(None));
    assert_eq!(placed_order_price(d("2"), d("10")), Some(Some(d("10"))));
}

#[test]
fn opening_steps() {
    assert_eq!(open_step(d("0"), true, true, false), OpenStep::Skip);
    assert_eq!(open_step(d("10"), false, true, false), OpenStep::ReportOnly);
    assert_eq!(open_step(d("10"), true, false, true), OpenStep::ReportOnly);
    assert_eq!(open_step(d("10"), true, true, true), OpenStep::AskSignals);
    assert_eq!(open_step(d("10"), true, false, false), OpenStep::AskSignals);
}

#[test]
fn cancel_results() {
    assert_eq!(after_cancel(CancelResult::PartiallyFilled, None, 7), (Some(7), false));
    assert_eq!(after_cancel(CancelResult::PartiallyFilled, Some(3), 7), (Some(3), true));
    assert_eq!(after_cancel(CancelResult::OpeningCanceled, Some(3), 7), (Some(3), false));
    assert_eq!(after_cancel(CancelResult::ClosingCanceled, None, 7), (None, false));
}

#[test]
fn fills_update_the_right_positions() {
    assert_eq!(fill_targets(5, None), (Some(5), None));
    assert_eq!(fill_targets(5, Some(5)), (None, Some(5)));
    assert_eq!(fill_targets(5, Some(2)), (Some(5), Some(2)));
}

#[test]
fn close_order_ticks() {
    assert_eq!(close_order_tick_count_max(300, 60), 5);
    assert_eq!(close_order_tick_count_max(299, 60), 4);
    assert_eq!(close_order_tick_count_max(-59, 60), 0);
    assert_eq!(close_order_tick_count_max(-300, -60), 5);
}

#[test]
fn close_candidates() {
    assert!(is_close_candidate(PositionPhase::Open, d("0")));
    assert!(is_close_candidate(PositionPhase::Opening, d("0.5")));
    assert!(!is_close_candidate(PositionPhase::Opening, d("0")));
    assert!(!is_close_candidate(PositionPhase::Closing, d("0.5")));
    assert!(!is_close_candidate(PositionPhase::Canceled, d("0.5")));
}

#[test]
fn back_test_points_run_out() {
    let points = vec![(1i64, 10u32), (2, 11), (3, 12)];
    assert_eq!(back_test_point(Some(&points), 0), Some((1, 10)));
    assert_eq!(back_test_point(Some(&points), 2), Some((3, 12)));
    assert_eq!(back_test_point(Some(&points), 3), None);
    assert_eq!(back_test_point::<(i64, u32)>(None, 0), None);
}

#[test]
fn position_book_follows_fills() {
    let mut book = PositionBook::new();
    book.record(1, PositionPhase::Opening);
    let none = FillEffects { order_phase: None, open_phase: None };
    // unknown position: ignored
    assert_eq!(book.apply_fill(9, none), Ok(FillOutcome::Ignored));
    // a refused fill
    assert_eq!(book.apply_fill(1, none), Err(FillError::Refused));
    assert_eq!(book.phase(1), Some(PositionPhase::Opening));
    // partly filled: stays opening, no open position yet
    let partly = FillEffects { order_phase: Some(PositionPhase::Opening), open_phase: None };
    assert_eq!(book.apply_fill(1, partly), Ok(FillOutcome::Applied { closed: None }));
    assert_eq!(book.open_position(), None);
    // fully filled: becomes the open position
    let opened = FillEffects { order_phase: Some(PositionPhase::Open), open_phase: None };
    assert_eq!(book.apply_fill(1, opened), Ok(FillOutcome::Applied { closed: None }));
    assert_eq!(book.open_position(), Some(1));
    assert_eq!(book.phase(1), Some(PositionPhase::Open));
    // a second fill for the open position is ignored
    assert_eq!(book.apply_fill(1, opened), Ok(FillOutcome::Ignored));
    // the close order fills: position 1 is closing, then closed
    book.record(1, PositionPhase::Closing);
    let closed = FillEffects { order_phase: None, open_phase: Some(PositionPhase::Closed) };
    assert_eq!(book.apply_fill(1, closed), Ok(FillOutcome::Applied { closed: Some(1) }));
    assert_eq!(book.open_position(), None);
    assert_eq!(book.phase(1), None);
}
