use std::collections::HashMap;
use vstd::prelude::*;

use crate::decimal::{
    abs, absolute, dec, decimal_difference, decimal_product, decimal_quotient, decimal_sum,
    divided_by, is_valid_decimal, is_zero, less_than, minus, ok_or_overflow, plus, times, value_lt, DecimalOverflow,
    DecimalValue,
};

verus! {

/// The side of an order: buying (long) or selling (short).
#[derive(Clone, Copy, Debug, PartialEq, Eq, Structural)]
pub enum OrderSide {
    Long,
    Short,
}

/// The price to place an order at: the price the signal asked for; without
/// one, the current price moved away from the market by the spread (the ATR of
/// the configured term times the ATR spread; below it when buying, above it when
/// selling); without a spread, the current price.
pub open spec fn order_price_for(
    current_price: DecimalValue,
    requested_price: Option<DecimalValue>,
    atr_spread: Option<DecimalValue>,
    atr_of_term: DecimalValue,
    is_buy: bool,
) -> Result<DecimalValue, DecimalOverflow> {
    match requested_price {
        Some(v) => Ok(v),
        None => match atr_spread {
            Some(s) => match decimal_product(atr_of_term, s) {
                Some(spread) => ok_or_overflow(
                    if is_buy {
                        decimal_difference(current_price, spread)
                    } else {
                        decimal_sum(current_price, spread)
                    },
                ),
                None => Err(DecimalOverflow),
            },
            None => Ok(current_price),
        },
    }
}

/// The price to place an order at (see [`order_price_for`]).
pub fn order_price(
    current_price: DecimalValue,
    requested_price: Option<DecimalValue>,
    atr_spread: Option<DecimalValue>,
    atr_of_term: DecimalValue,
    is_buy: bool,
) -> (price: Result<DecimalValue, DecimalOverflow>)
    requires
        is_valid_decimal(current_price),
        is_valid_decimal(atr_of_term),
        atr_spread matches Some(s) ==> is_valid_decimal(s),
        requested_price matches Some(v) ==> is_valid_decimal(v),
    ensures
        price == order_price_for(current_price, requested_price, atr_spread, atr_of_term, is_buy),
        price matches Ok(p) ==> is_valid_decimal(p),
{
    match requested_price {
        Some(v) => Ok(v),
        None => match atr_spread {
            Some(s) => {
                let spread = times(atr_of_term, s)?;
                if is_buy {
                    minus(current_price, spread)
                } else {
                    plus(current_price, spread)
                }
            },
            None => Ok(current_price),
        },
    }
}

/// How far from the entry price profit is taken: the take-profit ratio times
/// the current price when a ratio is set; otherwise the ATR times the
/// risk/reward, or nothing when the ATR is zero.
pub open spec fn take_profit_distance_for(
    current_price: DecimalValue,
    take_profit_ratio: Option<DecimalValue>,
    atr: DecimalValue,
    risk_reward: DecimalValue,
) -> Result<Option<DecimalValue>, DecimalOverflow> {
    match take_profit_ratio {
        Some(r) => match decimal_product(r, current_price) {
            Some(d) => Ok(Some(d)),
            None => Err(DecimalOverflow),
        },
        None => if is_zero(atr) {
            Ok(None)
        } else {
            match decimal_product(atr, risk_reward) {
                Some(d) => Ok(Some(d)),
                None => Err(DecimalOverflow),
            }
        },
    }
}

/// How far from the entry price profit is taken (see [`take_profit_distance_for`]).
pub fn take_profit_distance(
    current_price: DecimalValue,
    take_profit_ratio: Option<DecimalValue>,
    atr: DecimalValue,
    risk_reward: DecimalValue,
) -> (distance: Result<Option<DecimalValue>, DecimalOverflow>)
    requires
        is_valid_decimal(current_price),
        is_valid_decimal(atr),
        is_valid_decimal(risk_reward),
        take_profit_ratio matches Some(r) ==> is_valid_decimal(r),
    ensures
        distance == take_profit_distance_for(current_price, take_profit_ratio, atr, risk_reward),
        distance matches Ok(Some(d)) ==> is_valid_decimal(d),
{
    match take_profit_ratio {
        Some(r) => Ok(Some(times(r, current_price)?)),
        None => {
            if atr.mantissa == 0 {
                Ok(None)
            } else {
                Ok(Some(times(atr, risk_reward)?))
            }
        },
    }
}

/// The price an order aims for: the current price plus the take-profit
/// distance for a long order, minus it for a short one; nothing without a
/// distance.
pub open spec fn target_price_for(
    current_price: DecimalValue,
    take_profit_distance: Option<DecimalValue>,
    side: OrderSide,
) -> Result<Option<DecimalValue>, DecimalOverflow> {
    match take_profit_distance {
        Some(d) => match (if side == OrderSide::Long {
            decimal_sum(current_price, d)
        } else {
            decimal_difference(current_price, d)
        }) {
            Some(t) => Ok(Some(t)),
            None => Err(DecimalOverflow),
        },
        None => Ok(None),
    }
}

/// The price an order aims for (see [`target_price_for`]).
pub fn target_price(
    current_price: DecimalValue,
    take_profit_distance: Option<DecimalValue>,
    side: OrderSide,
) -> (target: Result<Option<DecimalValue>, DecimalOverflow>)
    requires
        is_valid_decimal(current_price),
        take_profit_distance matches Some(d) ==> is_valid_decimal(d),
    ensures
        target == target_price_for(current_price, take_profit_distance, side),
        target matches Ok(Some(t)) ==> is_valid_decimal(t),
{
    match take_profit_distance {
        Some(d) => match side {
            OrderSide::Long => Ok(Some(plus(current_price, d)?)),
            OrderSide::Short => Ok(Some(minus(current_price, d)?)),
        },
        None => Ok(None),
    }
}

/// The stop of a filled order: one ATR (of the configured term) below the fill
/// price for a long position, above it for a short one; nothing when the ATR is
/// zero.
pub fn cut_loss_price(filled_price: DecimalValue, atr_of_term: DecimalValue, side: OrderSide) -> (stop:
    Result<Option<DecimalValue>, DecimalOverflow>)
    requires
        is_valid_decimal(filled_price),
        is_valid_decimal(atr_of_term),
    ensures
        stop == if is_zero(atr_of_term) {
            Ok(None)
        } else {
            match (if side == OrderSide::Long {
                decimal_difference(filled_price, atr_of_term)
            } else {
                decimal_sum(filled_price, atr_of_term)
            }) {
                Some(p) => Ok(Some(p)),
                None => Err(DecimalOverflow),
            }
        },
{
    if atr_of_term.mantissa == 0 {
        return Ok(None);
    }
    match side {
        OrderSide::Long => Ok(Some(minus(filled_price, atr_of_term)?)),
        OrderSide::Short => Ok(Some(plus(filled_price, atr_of_term)?)),
    }
}

/// The fund's free amount after a fill: with an open position, the initial
/// amount minus the position's asset when that is positive (plus it when
/// negative); without one, the previous amount minus the filled value.
pub fn amount_after_trade(
    amount: DecimalValue,
    initial_amount: DecimalValue,
    open_position_asset: Option<DecimalValue>,
    filled_value: DecimalValue,
) -> (new_amount: Result<DecimalValue, DecimalOverflow>)
    requires
        is_valid_decimal(amount),
        is_valid_decimal(initial_amount),
        is_valid_decimal(filled_value),
        open_position_asset matches Some(a) ==> is_valid_decimal(a),
    ensures
        new_amount == match open_position_asset {
            Some(asset) => ok_or_overflow(
                if asset.mantissa >= 0 {
                    decimal_difference(initial_amount, asset)
                } else {
                    decimal_sum(initial_amount, asset)
                },
            ),
            None => ok_or_overflow(decimal_difference(amount, filled_value)),
        },
{
    match open_position_asset {
        Some(asset) => {
            if asset.mantissa >= 0 {
                minus(initial_amount, asset)
            } else {
                plus(initial_amount, asset)
            }
        },
        None => minus(amount, filled_value),
    }
}

/// The profit of the open position at `price` and its ratio to the position's
/// size: amount times price plus the asset (which is negative for money paid
/// out), and that divided by the absolute asset; both zero without a position.
pub fn unrealized_pnl(open_position: Option<(DecimalValue, DecimalValue)>, price: DecimalValue) -> (pnl:
    Result<(DecimalValue, DecimalValue), DecimalOverflow>)
    requires
        is_valid_decimal(price),
        open_position matches Some(p) ==> is_valid_decimal(p.0) && is_valid_decimal(p.1),
    ensures
        pnl == match open_position {
            Some((amount, asset)) => match decimal_product(amount, price) {
                Some(value) => match decimal_sum(value, asset) {
                    Some(profit) => match decimal_quotient(profit, abs(asset)) {
                        Some(ratio) => Ok((profit, ratio)),
                        None => Err(DecimalOverflow),
                    },
                    None => Err(DecimalOverflow),
                },
                None => Err(DecimalOverflow),
            },
            None => Ok((dec(0, 0), dec(0, 0))),
        },
{
    match open_position {
        Some((amount, asset)) => {
            let value = times(amount, price)?;
            let profit = plus(value, asset)?;
            let ratio = divided_by(profit, absolute(asset))?;
            Ok((profit, ratio))
        },
        None => Ok((DecimalValue { mantissa: 0, scale: 0 }, DecimalValue { mantissa: 0, scale: 0 })),
    }
}

/// The margin a position must make before it counts as profitable: 0.1%.
pub open spec fn min_profit_ratio() -> DecimalValue {
    dec(1, 3)
}

/// Whether a position is in profit by more than 0.1%: for a long position the
/// price is above the average open price times 1.001, for a short one below it
/// times 0.999.
pub fn is_profitable_position(
    side: OrderSide,
    current_price: DecimalValue,
    average_open_price: DecimalValue,
) -> (profitable: Result<bool, DecimalOverflow>)
    requires
        is_valid_decimal(current_price),
        is_valid_decimal(average_open_price),
    ensures
        profitable == if side == OrderSide::Long {
            match decimal_sum(dec(1, 0), min_profit_ratio()) {
                Some(f) => match decimal_product(average_open_price, f) {
                    Some(limit) => Ok(value_lt(limit, current_price)),
                    None => Err(DecimalOverflow),
                },
                None => Err(DecimalOverflow),
            }
        } else {
            match decimal_difference(dec(1, 0), min_profit_ratio()) {
                Some(f) => match decimal_product(average_open_price, f) {
                    Some(limit) => Ok(value_lt(current_price, limit)),
                    None => Err(DecimalOverflow),
                },
                None => Err(DecimalOverflow),
            }
        },
{
    let one = DecimalValue { mantissa: 1, scale: 0 };
    let ratio = DecimalValue { mantissa: 1, scale: 3 };
    match side {
        OrderSide::Long => {
            let factor = plus(one, ratio)?;
            let limit = times(average_open_price, factor)?;
            Ok(less_than(limit, current_price))
        },
        OrderSide::Short => {
            let factor = minus(one, ratio)?;
            let limit = times(average_open_price, factor)?;
            Ok(less_than(current_price, limit))
        },
    }
}

/// Whether a fund may open a new trade at `current_time`: not while it holds
/// positions, and not until `execution_delay_secs` seconds have passed since its
/// last trade.
pub fn can_execute_new_trade(
    has_positions: bool,
    last_trade_time: Option<i64>,
    current_time: i64,
    execution_delay_secs: i64,
) -> (allowed: bool)
    requires
        last_trade_time matches Some(t) ==> i64::MIN <= current_time - t <= i64::MAX,
    ensures
        allowed == (!has_positions && match last_trade_time {
            Some(t) => current_time - t >= execution_delay_secs,
            None => true,
        }),
{
    if has_positions {
        return false;
    }
    if let Some(last) = last_trade_time {
        if current_time - last < execution_delay_secs {
            return false;
        }
    }
    true
}


/// What a signal to open a position asks for: the side, the price (none for the
/// fund's own), the amount in USD (none for the fund's trading amount) and the
/// confidence that scales the amount.
#[derive(Clone, Copy, Debug, PartialEq, Eq, Structural)]
pub struct OpenSignal {
    pub side: OrderSide,
    pub order_price: Option<DecimalValue>,
    pub amount_in_usd: Option<DecimalValue>,
    pub confidence: DecimalValue,
}

/// The settings of a fund that shape the orders it opens.
#[derive(Clone, Copy, Debug, PartialEq, Eq, Structural)]
pub struct OpenSettings {
    /// The amount in USD each order trades when the signal names none.
    pub trading_amount: DecimalValue,
    /// The distance from the market, in ATRs of the configured term, of an order
    /// placed at the fund's own price.
    pub atr_spread: Option<DecimalValue>,
    /// The profit to aim for, as a ratio of the price.
    pub take_profit_ratio: Option<DecimalValue>,
    /// The profit to aim for, in ATRs, when no ratio is set.
    pub risk_reward: DecimalValue,
}

/// What the market data says at the time of the order.
#[derive(Clone, Copy, Debug, PartialEq, Eq, Structural)]
pub struct MarketReadings {
    /// The average true range.
    pub atr: DecimalValue,
    /// The average true range over the fund's ATR term.
    pub atr_of_term: DecimalValue,
}

/// An order to open a position: side, price, amount of the token and the price
/// at which profit is to be taken.
#[derive(Clone, Copy, Debug, PartialEq, Eq, Structural)]
pub struct OpenOrder {
    pub side: OrderSide,
    pub order_price: DecimalValue,
    pub token_amount: DecimalValue,
    pub target_price: DecimalValue,
}

pub open spec fn valid_open_signal(signal: OpenSignal) -> bool {
    &&& is_valid_decimal(signal.confidence)
    &&& signal.order_price matches Some(p) ==> is_valid_decimal(p)
    &&& signal.amount_in_usd matches Some(a) ==> is_valid_decimal(a)
}

pub open spec fn valid_open_settings(settings: OpenSettings) -> bool {
    &&& is_valid_decimal(settings.trading_amount)
    &&& is_valid_decimal(settings.risk_reward)
    &&& settings.atr_spread matches Some(s) ==> is_valid_decimal(s)
    &&& settings.take_profit_ratio matches Some(r) ==> is_valid_decimal(r)
}

/// The amount of the token an order buys or sells: the signal's amount times its
/// confidence; without one, the trading amount divided by the order price, times
/// the confidence.
pub open spec fn token_amount_for(signal: OpenSignal, trading_amount: DecimalValue, order_price: DecimalValue) -> Result<
    DecimalValue,
    DecimalOverflow,
> {
    match signal.amount_in_usd {
        Some(a) => ok_or_overflow(decimal_product(a, signal.confidence)),
        None => match decimal_quotient(trading_amount, order_price) {
            Some(units) => ok_or_overflow(decimal_product(units, signal.confidence)),
            None => Err(DecimalOverflow),
        },
    }
}

/// The order a fund holding `fund_amount` places for an open signal at
/// `current_price`: its price (see [`order_price_for`]), its amount (see
/// [`token_amount_for`]) and its target (see [`target_price_for`], from the
/// current price). No order (`Ok(None)`) when there is no target, or when the
/// order's value (amount times price) is not below what the fund holds.
pub open spec fn open_order_for(
    current_price: DecimalValue,
    signal: OpenSignal,
    settings: OpenSettings,
    readings: MarketReadings,
    fund_amount: DecimalValue,
) -> Result<Option<OpenOrder>, DecimalOverflow> {
    let is_buy = signal.side == OrderSide::Long;
    match order_price_for(current_price, signal.order_price, settings.atr_spread, readings.atr_of_term, is_buy) {
        Err(e) => Err(e),
        Ok(price) => match token_amount_for(signal, settings.trading_amount, price) {
            Err(e) => Err(e),
            Ok(amount) => match take_profit_distance_for(
                current_price,
                settings.take_profit_ratio,
                readings.atr,
                settings.risk_reward,
            ) {
                Err(e) => Err(e),
                Ok(distance) => match target_price_for(current_price, distance, signal.side) {
                    Err(e) => Err(e),
                    Ok(None) => Ok(None),
                    Ok(Some(target)) => match decimal_product(amount, price) {
                        None => Err(DecimalOverflow),
                        Some(value) => if value_lt(value, fund_amount) {
                            Ok(Some(OpenOrder { side: signal.side, order_price: price, token_amount: amount, target_price: target }))
                        } else {
                            Ok(None)
                        },
                    },
                },
            },
        },
    }
}

/// The order a fund places for a signal to open a position (see
/// [`open_order_for`]); rust_decimal's overflow or a division by a zero price
/// is an error.
pub fn plan_open_order(
    current_price: DecimalValue,
    signal: OpenSignal,
    settings: OpenSettings,
    readings: MarketReadings,
    fund_amount: DecimalValue,
) -> (order: Result<Option<OpenOrder>, DecimalOverflow>)
    requires
        is_valid_decimal(current_price),
        is_valid_decimal(fund_amount),
        is_valid_decimal(readings.atr),
        is_valid_decimal(readings.atr_of_term),
        valid_open_signal(signal),
        valid_open_settings(settings),
    ensures
        order == open_order_for(current_price, signal, settings, readings, fund_amount),
        order matches Ok(Some(o)) ==> o.side == signal.side,
        order matches Ok(Some(o)) ==> (decimal_product(o.token_amount, o.order_price) matches Some(value)
            && value_lt(value, fund_amount)),
{
    let is_buy = match signal.side {
        OrderSide::Long => true,
        OrderSide::Short => false,
    };
    let price = order_price(current_price, signal.order_price, settings.atr_spread, readings.atr_of_term, is_buy)?;
    let amount = match signal.amount_in_usd {
        Some(a) => times(a, signal.confidence)?,
        None => {
            let units = divided_by(settings.trading_amount, price)?;
            times(units, signal.confidence)?
        },
    };
    let distance = take_profit_distance(current_price, settings.take_profit_ratio, readings.atr, settings.risk_reward)?;
    let target = match target_price(current_price, distance, signal.side)? {
        Some(t) => t,
        None => return Ok(None),
    };
    let value = times(amount, price)?;
    if less_than(value, fund_amount) {
        Ok(Some(OpenOrder { side: signal.side, order_price: price, token_amount: amount, target_price: target }))
    } else {
        Ok(None)
    }
}


/// Why a position is closed.
#[derive(Clone, Copy, Debug, PartialEq, Eq, Structural)]
pub enum ReasonForClose {
    TakeProfit,
    CutLoss,
    Expired,
    Liquidated,
    /// The signal turned against the position.
    TrendChanged,
    /// The signal asked to trim the position.
    TrimPosition,
}

/// What the market data signals about an open position.
#[derive(Clone, Copy, Debug, PartialEq, Eq, Structural)]
pub enum CloseSignal {
    BuyClose,
    SellClose,
    BuyTrim,
    SellTrim,
    /// Any other signal, or none.
    Hold,
}

/// The statistic a close decision counts in.
#[derive(Clone, Copy, Debug, PartialEq, Eq, Structural)]
pub enum CloseCount {
    TrendChanged,
    Trim,
    TakeProfit,
    CutLoss,
    Expired,
}

/// What a fund decides about one of its positions: the reason to close it (none
/// to keep it), the share of it to close, whether to cancel all its open orders
/// first, and the statistic the decision counts in.
#[derive(Clone, Copy, Debug, PartialEq, Eq, Structural)]
pub struct CloseDecision {
    pub reason: Option<ReasonForClose>,
    pub confidence: DecimalValue,
    pub cancel_all_orders: bool,
    pub counted: Option<CloseCount>,
}

/// Whether `signal` turns against (or trims) a position on `side`: a buy
/// signal against a short position, a sell signal against a long one.
pub open spec fn signal_reason(signal: CloseSignal, side: OrderSide) -> Option<(ReasonForClose, CloseCount)> {
    match signal {
        CloseSignal::BuyClose => if side == OrderSide::Short {
            Some((ReasonForClose::TrendChanged, CloseCount::TrendChanged))
        } else {
            None
        },
        CloseSignal::SellClose => if side == OrderSide::Long {
            Some((ReasonForClose::TrendChanged, CloseCount::TrendChanged))
        } else {
            None
        },
        CloseSignal::BuyTrim => if side == OrderSide::Short {
            Some((ReasonForClose::TrimPosition, CloseCount::Trim))
        } else {
            None
        },
        CloseSignal::SellTrim => if side == OrderSide::Long {
            Some((ReasonForClose::TrimPosition, CloseCount::Trim))
        } else {
            None
        },
        CloseSignal::Hold => None,
    }
}

/// The decision on a position on `side`: a signal against it closes it with the
/// signal's confidence (zero when it has none) after cancelling all orders;
/// otherwise the position's own take-profit or stop (`position_reason`) closes
/// it whole; otherwise it expires when its opening has timed out
/// (`open_expired`); otherwise it stays.
pub open spec fn close_decision_for(
    signal: CloseSignal,
    signal_confidence: Option<DecimalValue>,
    side: OrderSide,
    position_reason: Option<ReasonForClose>,
    open_expired: bool,
) -> CloseDecision {
    match signal_reason(signal, side) {
        Some((reason, count)) => CloseDecision {
            reason: Some(reason),
            confidence: match signal_confidence {
                Some(c) => c,
                None => dec(0, 0),
            },
            cancel_all_orders: true,
            counted: Some(count),
        },
        None => match position_reason {
            Some(reason) => CloseDecision {
                reason: Some(reason),
                confidence: dec(1, 0),
                cancel_all_orders: false,
                counted: match reason {
                    ReasonForClose::TakeProfit => Some(CloseCount::TakeProfit),
                    ReasonForClose::CutLoss => Some(CloseCount::CutLoss),
                    _ => None,
                },
            },
            None => if open_expired {
                CloseDecision {
                    reason: Some(ReasonForClose::Expired),
                    confidence: dec(1, 0),
                    cancel_all_orders: false,
                    counted: Some(CloseCount::Expired),
                }
            } else {
                CloseDecision { reason: None, confidence: dec(1, 0), cancel_all_orders: false, counted: None }
            },
        },
    }
}

/// What a fund decides about a position on `side` (see [`close_decision_for`]).
pub fn decide_close(
    signal: CloseSignal,
    signal_confidence: Option<DecimalValue>,
    side: OrderSide,
    position_reason: Option<ReasonForClose>,
    open_expired: bool,
) -> (decision: CloseDecision)
    ensures
        decision == close_decision_for(signal, signal_confidence, side, position_reason, open_expired),
{
    let against = match signal {
        CloseSignal::BuyClose => match side {
            OrderSide::Short => Some((ReasonForClose::TrendChanged, CloseCount::TrendChanged)),
            OrderSide::Long => None,
        },
        CloseSignal::SellClose => match side {
            OrderSide::Long => Some((ReasonForClose::TrendChanged, CloseCount::TrendChanged)),
            OrderSide::Short => None,
        },
        CloseSignal::BuyTrim => match side {
            OrderSide::Short => Some((ReasonForClose::TrimPosition, CloseCount::Trim)),
            OrderSide::Long => None,
        },
        CloseSignal::SellTrim => match side {
            OrderSide::Long => Some((ReasonForClose::TrimPosition, CloseCount::Trim)),
            OrderSide::Short => None,
        },
        CloseSignal::Hold => None,
    };
    let one = DecimalValue { mantissa: 1, scale: 0 };
    match against {
        Some((reason, count)) => {
            let confidence = match signal_confidence {
                Some(c) => c,
                None => DecimalValue { mantissa: 0, scale: 0 },
            };
            CloseDecision { reason: Some(reason), confidence, cancel_all_orders: true, counted: Some(count) }
        },
        None => match position_reason {
            Some(reason) => {
                let counted = match reason {
                    ReasonForClose::TakeProfit => Some(CloseCount::TakeProfit),
                    ReasonForClose::CutLoss => Some(CloseCount::CutLoss),
                    _ => None,
                };
                CloseDecision { reason: Some(reason), confidence: one, cancel_all_orders: false, counted }
            },
            None => {
                if open_expired {
                    CloseDecision {
                        reason: Some(ReasonForClose::Expired),
                        confidence: one,
                        cancel_all_orders: false,
                        counted: Some(CloseCount::Expired),
                    }
                } else {
                    CloseDecision { reason: None, confidence: one, cancel_all_orders: false, counted: None }
                }
            },
        },
    }
}

/// The side that closes a position on `side`: the other one.
pub open spec fn closing_side(side: OrderSide) -> OrderSide {
    match side {
        OrderSide::Long => OrderSide::Short,
        OrderSide::Short => OrderSide::Long,
    }
}

/// The order that carries out a close decision on a position on `side` holding
/// `position_amount` of the token: on the other side, for the absolute amount
/// times the decision's confidence; none when the decision keeps the position.
pub fn close_order(side: OrderSide, position_amount: DecimalValue, decision: CloseDecision) -> (order: Result<
    Option<(OrderSide, DecimalValue)>,
    DecimalOverflow,
>)
    requires
        is_valid_decimal(position_amount),
        is_valid_decimal(decision.confidence),
    ensures
        order == match decision.reason {
            None => Ok(None),
            Some(_) => match decimal_product(abs(position_amount), decision.confidence) {
                Some(amount) => Ok(Some((closing_side(side), amount))),
                None => Err(DecimalOverflow),
            },
        },
        order matches Ok(Some((s, _))) ==> s != side,
{
    if decision.reason.is_none() {
        return Ok(None);
    }
    let amount = times(absolute(position_amount), decision.confidence)?;
    let other = match side {
        OrderSide::Long => OrderSide::Short,
        OrderSide::Short => OrderSide::Long,
    };
    Ok(Some((other, amount)))
}



/// Returned for an order of no positive amount.
#[derive(Clone, Copy, Debug, PartialEq, Eq, Structural)]
pub struct WrongTokenAmount;

/// Whether an order closing for `reason` (none for an opening order) goes to
/// the market: with market orders configured, openings and closes for
/// liquidation, expiry or a stop do; take-profit and signal closes stay limit
/// orders.
pub open spec fn goes_to_market(reason: Option<ReasonForClose>, use_market_order: bool) -> bool {
    use_market_order && match reason {
        None => true,
        Some(ReasonForClose::Liquidated) => true,
        Some(ReasonForClose::Expired) => true,
        Some(ReasonForClose::CutLoss) => true,
        Some(_) => false,
    }
}

/// The limit price an order is sent with (none for a market order, see
/// [`goes_to_market`]); an order of no positive amount is refused.
pub fn order_request_price(
    token_amount: DecimalValue,
    order_price: DecimalValue,
    reason: Option<ReasonForClose>,
    use_market_order: bool,
) -> (price: Result<Option<DecimalValue>, WrongTokenAmount>)
    ensures
        price == if token_amount.mantissa <= 0 {
            Err(WrongTokenAmount)
        } else if goes_to_market(reason, use_market_order) {
            Ok(None)
        } else {
            Ok(Some(order_price))
        },
{
    if token_amount.mantissa <= 0 {
        return Err(WrongTokenAmount);
    }
    let market = use_market_order && match reason {
        None => true,
        Some(ReasonForClose::Liquidated) => true,
        Some(ReasonForClose::Expired) => true,
        Some(ReasonForClose::CutLoss) => true,
        Some(_) => false,
    };
    if market {
        Ok(None)
    } else {
        Ok(Some(order_price))
    }
}

/// What the exchange's answer to an order leaves to record: nothing when it
/// ordered no positive size; otherwise the price it ordered at, none for a
/// market order (reported as a zero price).
pub fn placed_order_price(ordered_size: DecimalValue, ordered_price: DecimalValue) -> (placed: Option<Option<DecimalValue>>)
    ensures
        placed == if ordered_size.mantissa <= 0 {
            None
        } else if ordered_price.mantissa == 0 {
            Some(None)
        } else {
            Some(Some(ordered_price))
        },
{
    if ordered_size.mantissa <= 0 {
        None
    } else if ordered_price.mantissa == 0 {
        Some(None)
    } else {
        Some(Some(ordered_price))
    }
}

/// What a fund does about opening positions in a round.
#[derive(Clone, Copy, Debug, PartialEq, Eq, Structural)]
pub enum OpenStep {
    /// Nothing: the fund trades no amount.
    Skip,
    /// No new order; only report the positions.
    ReportOnly,
    /// Ask the market data for signals and act on them.
    AskSignals,
}

/// The step a fund takes about opening positions: none without a trading
/// amount; only a report while it may not trade (see [`can_execute_new_trade`])
/// or on a Sunday outside a dry run; otherwise it asks for signals.
pub fn open_step(trading_amount: DecimalValue, can_execute: bool, dry_run: bool, is_sunday: bool) -> (step: OpenStep)
    ensures
        step == if is_zero(trading_amount) {
            OpenStep::Skip
        } else if !can_execute || (!dry_run && is_sunday) {
            OpenStep::ReportOnly
        } else {
            OpenStep::AskSignals
        },
{
    if trading_amount.mantissa == 0 {
        OpenStep::Skip
    } else if !can_execute {
        OpenStep::ReportOnly
    } else if dry_run || !is_sunday {
        OpenStep::AskSignals
    } else {
        OpenStep::ReportOnly
    }
}

/// What cancelling a position's order did to it.
#[derive(Clone, Copy, Debug, PartialEq, Eq, Structural)]
pub enum CancelResult {
    /// An opening order was cancelled with nothing filled.
    OpeningCanceled,
    /// A closing order was cancelled; the position is open again.
    ClosingCanceled,
    /// An opening order was cancelled after part of it filled.
    PartiallyFilled,
}

/// The fund's open position after cancelling the order of position
/// `position_id`, and whether that position is to be ignored: a partly filled
/// opening becomes the open position when the fund has none, and is ignored
/// when it has one; other results change nothing.
pub fn after_cancel(result: CancelResult, open_position_id: Option<u32>, position_id: u32) -> (after: (
    Option<u32>,
    bool,
))
    ensures
        after == match result {
            CancelResult::PartiallyFilled => match open_position_id {
                None => (Some(position_id), false),
                Some(id) => (Some(id), true),
            },
            _ => (open_position_id, false),
        },
{
    match result {
        CancelResult::PartiallyFilled => match open_position_id {
            None => (Some(position_id), false),
            Some(id) => (Some(id), true),
        },
        _ => (open_position_id, false),
    }
}

/// The positions a fill updates: the position whose order filled, unless it is
/// the open position itself, and then the fund's open position, if it has one.
pub fn fill_targets(order_position_id: u32, open_position_id: Option<u32>) -> (targets: (Option<u32>, Option<u32>))
    ensures
        targets.1 == open_position_id,
        targets.0 == if open_position_id == Some(order_position_id) {
            None
        } else {
            Some(order_position_id)
        },
        targets.0 is Some || targets.1 is Some,
{
    match open_position_id {
        Some(id) => {
            if id == order_position_id {
                (None, open_position_id)
            } else {
                (Some(order_position_id), open_position_id)
            }
        },
        None => (Some(order_position_id), None),
    }
}


/// Where a position stands in its life.
#[derive(Clone, Copy, Debug, PartialEq, Eq, Structural)]
pub enum PositionPhase {
    /// Its opening order waits to be filled.
    Opening,
    Open,
    /// Its closing order waits to be filled.
    Closing,
    Closed,
    Canceled,
}

/// Whether a position is looked at for closing: an open one always, an opening
/// one once part of it has filled (it holds a nonzero amount), no other.
pub fn is_close_candidate(phase: PositionPhase, amount: DecimalValue) -> (candidate: bool)
    ensures
        candidate == match phase {
            PositionPhase::Open => true,
            PositionPhase::Opening => !is_zero(amount),
            _ => false,
        },
{
    match phase {
        PositionPhase::Open => true,
        PositionPhase::Opening => amount.mantissa != 0,
        _ => false,
    }
}


/// What a signal to trade details: the price (none for the fund's own), the
/// amount in USD (none for the fund's trading amount) and the confidence.
#[derive(Clone, Copy, Debug, PartialEq, Eq, Structural)]
pub struct TradeDetail {
    pub order_price: Option<DecimalValue>,
    pub amount_in_usd: Option<DecimalValue>,
    pub confidence: DecimalValue,
}

/// A signal of the market data, as the opening pass reads it.
#[derive(Clone, Copy, Debug, PartialEq, Eq, Structural)]
pub enum TradeAction {
    BuyOpen(TradeDetail),
    SellOpen(TradeDetail),
    /// Any signal that opens nothing.
    Other,
}

/// The opening signal of an action: long for `BuyOpen`, short for `SellOpen`,
/// none for any other action.
pub open spec fn open_signal_of(action: TradeAction) -> Option<OpenSignal> {
    match action {
        TradeAction::BuyOpen(d) => Some(
            OpenSignal { side: OrderSide::Long, order_price: d.order_price, amount_in_usd: d.amount_in_usd, confidence: d.confidence },
        ),
        TradeAction::SellOpen(d) => Some(
            OpenSignal { side: OrderSide::Short, order_price: d.order_price, amount_in_usd: d.amount_in_usd, confidence: d.confidence },
        ),
        TradeAction::Other => None,
    }
}

pub open spec fn valid_action(action: TradeAction) -> bool {
    open_signal_of(action) matches Some(s) ==> valid_open_signal(s)
}

/// The first action at or after `from` that gives an order (see
/// [`open_order_for`]), with its index: actions that open nothing, and opening
/// actions with no target or more than the fund holds, are passed over;
/// rust_decimal's overflow on the way is an error.
pub open spec fn first_order_from(
    actions: Seq<TradeAction>,
    from: int,
    current_price: DecimalValue,
    settings: OpenSettings,
    readings: MarketReadings,
    fund_amount: DecimalValue,
) -> Result<Option<(int, OpenOrder)>, DecimalOverflow>
    decreases actions.len() - from,
{
    if from < 0 || from >= actions.len() {
        Ok(None)
    } else {
        match open_signal_of(actions[from]) {
            None => first_order_from(actions, from + 1, current_price, settings, readings, fund_amount),
            Some(signal) => match open_order_for(current_price, signal, settings, readings, fund_amount) {
                Err(e) => Err(e),
                Ok(None) => first_order_from(actions, from + 1, current_price, settings, readings, fund_amount),
                Ok(Some(order)) => Ok(Some((from, order))),
            },
        }
    }
}

/// The next step of a fund's pass over the opening actions of a round.
#[derive(Clone, Copy, Debug, PartialEq, Eq, Structural)]
pub enum OpenPass {
    /// Execute `order`, for the action at `index`; then ask again from
    /// `index + 1`.
    Execute { index: usize, order: OpenOrder },
    /// Every action was handled.
    Finished,
    /// An execution failed: the pass ends with that failure, and no later action
    /// is tried.
    Failed,
}

/// The next step of the opening pass, asked with the index to go on from and
/// whether the last execution failed: after a failure the pass fails at once;
/// otherwise it executes the order of the next action that gives one (see
/// [`first_order_from`]), or finishes when none is left.
pub fn open_pass_step(
    current_price: DecimalValue,
    actions: &Vec<TradeAction>,
    settings: OpenSettings,
    readings: MarketReadings,
    fund_amount: DecimalValue,
    from: usize,
    last_failed: bool,
) -> (step: Result<OpenPass, DecimalOverflow>)
    requires
        is_valid_decimal(current_price),
        is_valid_decimal(fund_amount),
        is_valid_decimal(readings.atr),
        is_valid_decimal(readings.atr_of_term),
        valid_open_settings(settings),
        forall|i: int| 0 <= i < actions@.len() ==> valid_action(#[trigger] actions@[i]),
    ensures
        last_failed ==> step == Ok::<OpenPass, DecimalOverflow>(OpenPass::Failed),
        !last_failed ==> step == match first_order_from(actions@, from as int, current_price, settings, readings, fund_amount) {
            Err(e) => Err(e),
            Ok(None) => Ok(OpenPass::Finished),
            Ok(Some((i, order))) => Ok(OpenPass::Execute { index: i as usize, order }),
        },
        step matches Ok(OpenPass::Execute { index, order }) ==> {
            &&& from <= index < actions@.len()
            &&& open_signal_of(actions@[index as int]) matches Some(signal)
            &&& order.side == signal.side
            &&& (order.side == OrderSide::Long <==> actions@[index as int] is BuyOpen)
        },
{
    if last_failed {
        return Ok(OpenPass::Failed);
    }
    let mut i = from;
    while i < actions.len()
        invariant
            from <= i,
            !last_failed,
            is_valid_decimal(current_price),
            is_valid_decimal(fund_amount),
            is_valid_decimal(readings.atr),
            is_valid_decimal(readings.atr_of_term),
            valid_open_settings(settings),
            forall|k: int| 0 <= k < actions@.len() ==> valid_action(#[trigger] actions@[k]),
            first_order_from(actions@, from as int, current_price, settings, readings, fund_amount)
                == first_order_from(actions@, i as int, current_price, settings, readings, fund_amount),
        decreases actions@.len() - i,
    {
        let signal = match actions[i] {
            TradeAction::BuyOpen(d) => OpenSignal {
                side: OrderSide::Long,
                order_price: d.order_price,
                amount_in_usd: d.amount_in_usd,
                confidence: d.confidence,
            },
            TradeAction::SellOpen(d) => OpenSignal {
                side: OrderSide::Short,
                order_price: d.order_price,
                amount_in_usd: d.amount_in_usd,
                confidence: d.confidence,
            },
            TradeAction::Other => {
                i = i + 1;
                continue;
            },
        };
        assert(valid_action(actions@[i as int]));
        match plan_open_order(current_price, signal, settings, readings, fund_amount)? {
            Some(order) => {
                return Ok(OpenPass::Execute { index: i, order });
            },
            None => {
                i = i + 1;
            },
        }
    }
    Ok(OpenPass::Finished)
}

/// What is sent to the exchange for a trade chance: the side (long for a buy),
/// the amount of the token and the limit price (see [`order_request_price`]).
#[derive(Clone, Copy, Debug, PartialEq, Eq, Structural)]
pub struct OrderRequest {
    pub side: OrderSide,
    pub size: DecimalValue,
    pub price: Option<DecimalValue>,
}

/// The order sent for a chance that buys (`is_buy`) or sells `token_amount` at
/// `order_price`, closing for `reason` (none when it opens): long exactly when it
/// buys, for the whole amount, at a limit price unless it goes to the market
/// (see [`goes_to_market`]); an amount that is not positive is refused and
/// nothing is sent.
pub fn order_request(
    token_amount: DecimalValue,
    is_buy: bool,
    order_price: DecimalValue,
    reason: Option<ReasonForClose>,
    use_market_order: bool,
) -> (request: Result<OrderRequest, WrongTokenAmount>)
    ensures
        request == if token_amount.mantissa <= 0 {
            Err(WrongTokenAmount)
        } else {
            Ok(
                OrderRequest {
                    side: if is_buy {
                        OrderSide::Long
                    } else {
                        OrderSide::Short
                    },
                    size: token_amount,
                    price: if goes_to_market(reason, use_market_order) {
                        None
                    } else {
                        Some(order_price)
                    },
                },
            )
        },
{
    let price = order_request_price(token_amount, order_price, reason, use_market_order)?;
    let side = if is_buy {
        OrderSide::Long
    } else {
        OrderSide::Short
    };
    Ok(OrderRequest { side, size: token_amount, price })
}

/// The exchange's answer to an order.
#[derive(Clone, Copy, Debug, PartialEq, Eq, Structural)]
pub enum OrderReply {
    /// The order could not be placed.
    Failed,
    /// The order was placed for `ordered_size` at `ordered_price` (zero for a
    /// market order).
    Placed { ordered_size: DecimalValue, ordered_price: DecimalValue },
}

/// What follows an order.
#[derive(Clone, Copy, Debug, PartialEq, Eq, Structural)]
pub enum AfterOrder {
    /// Nothing: the fund, its positions and its last trade time stay as they were,
    /// and the chance is done without error.
    Done,
    /// Record the position for `ordered_size` at `ordered_price` (none for a
    /// market order); once that succeeds, the last trade time becomes the current
    /// time.
    RecordPosition { ordered_size: DecimalValue, ordered_price: Option<DecimalValue> },
}

/// What follows the exchange's answer: a failed order, or one placed for no
/// positive size, changes nothing; otherwise the position is recorded at the
/// ordered price (none when it is zero, see [`placed_order_price`]).
pub fn after_order(reply: OrderReply) -> (next: AfterOrder)
    ensures
        next == match reply {
            OrderReply::Failed => AfterOrder::Done,
            OrderReply::Placed { ordered_size, ordered_price } => if ordered_size.mantissa <= 0 {
                AfterOrder::Done
            } else {
                AfterOrder::RecordPosition {
                    ordered_size,
                    ordered_price: if ordered_price.mantissa == 0 {
                        None
                    } else {
                        Some(ordered_price)
                    },
                }
            },
        },
{
    match reply {
        OrderReply::Failed => AfterOrder::Done,
        OrderReply::Placed { ordered_size, ordered_price } => match placed_order_price(ordered_size, ordered_price) {
            None => AfterOrder::Done,
            Some(price) => AfterOrder::RecordPosition { ordered_size, ordered_price: price },
        },
    }
}


/// What applying a fill did to a position, as the position's own logic decides
/// it: the phase it reached, or `None` when it refused the fill.
#[derive(Clone, Copy, Debug, PartialEq, Eq, Structural)]
pub struct FillEffects {
    /// For the position whose order filled.
    pub order_phase: Option<PositionPhase>,
    /// For the fund's open position.
    pub open_phase: Option<PositionPhase>,
}

/// Why a fill could not be applied.
#[derive(Clone, Copy, Debug, PartialEq, Eq, Structural)]
pub enum FillError {
    /// The fund's open position is not among its positions.
    PositionNotFound,
    /// A position refused the fill.
    Refused,
}

/// What a fill did to the fund.
#[derive(Clone, Copy, Debug, PartialEq, Eq, Structural)]
pub enum FillOutcome {
    /// The fill was not for a pending order of the fund (no such position, or it
    /// is open already): nothing changed.
    Ignored,
    /// The fill was applied; `closed` is the open position it closed, if any,
    /// whose proceeds return to the fund.
    Applied { closed: Option<u32> },
}

/// The fund's positions and its open position after the order of position `id`
/// filled, given what the positions made of the fill (`effects`), with the
/// result. A fill for no position, or for one already open, is ignored.
/// Otherwise: unless `id` is the open position itself, that position takes the
/// fill and, once open, leaves the list (an open position lives on as the
/// fund's open position). Then the fund's open position takes the fill; without
/// one, the newly open position becomes it. Last, an open position that the fill
/// closed leaves the list and the fund has no open position. A position that
/// refuses the fill, or an open position missing from the list, ends with an
/// error, with what was done before it kept.
pub open spec fn fill_applied(
    phases: Map<u32, PositionPhase>,
    open: Option<u32>,
    id: u32,
    effects: FillEffects,
) -> (Result<FillOutcome, FillError>, Map<u32, PositionPhase>, Option<u32>) {
    if !phases.contains_key(id) || phases[id] == PositionPhase::Open {
        (Ok(FillOutcome::Ignored), phases, open)
    } else {
        let fills_order = open != Some(id);
        let step1: Result<(Map<u32, PositionPhase>, PositionPhase), FillError> = if fills_order {
            match effects.order_phase {
                None => Err(FillError::Refused),
                Some(p) => Ok(
                    (
                        if p == PositionPhase::Open {
                            phases.remove(id)
                        } else {
                            phases.insert(id, p)
                        },
                        p,
                    ),
                ),
            }
        } else {
            Ok((phases, phases[id]))
        };
        match step1 {
            Err(e) => (Err(e), phases, open),
            Ok((m1, p)) => {
                let step2: Result<(Map<u32, PositionPhase>, Option<u32>), (FillError, Map<u32, PositionPhase>)> = match open {
                    Some(oid) => if !m1.contains_key(oid) {
                        Err((FillError::PositionNotFound, m1))
                    } else {
                        match effects.open_phase {
                            None => Err((FillError::Refused, m1)),
                            Some(q) => Ok((m1.insert(oid, q), open)),
                        }
                    },
                    None => if p == PositionPhase::Open {
                        Ok((m1.insert(id, PositionPhase::Open), Some(id)))
                    } else {
                        Ok((m1, None))
                    },
                };
                match step2 {
                    Err((e, m)) => (Err(e), m, open),
                    Ok((m2, open2)) => match open2 {
                        Some(x) => if m2.contains_key(x) && m2[x] == PositionPhase::Closed {
                            (Ok(FillOutcome::Applied { closed: Some(x) }), m2.remove(x), None)
                        } else {
                            (Ok(FillOutcome::Applied { closed: None }), m2, open2)
                        },
                        None => (Ok(FillOutcome::Applied { closed: None }), m2, open2),
                    },
                }
            },
        }
    }
}

/// The positions of a fund by id, with the id of its open position.
pub struct PositionBook {
    phases: HashMap<u32, PositionPhase>,
    open_position_id: Option<u32>,
}

impl PositionBook {
    /// The phase of each position, by id.
    pub closed spec fn spec_phases(&self) -> Map<u32, PositionPhase> {
        self.phases@
    }

    /// The id of the fund's open position.
    pub closed spec fn spec_open_position(&self) -> Option<u32> {
        self.open_position_id
    }

    pub fn new() -> (book: Self)
        ensures
            book.spec_phases() == Map::<u32, PositionPhase>::empty(),
            book.spec_open_position() is None,
    {
        PositionBook { phases: HashMap::new(), open_position_id: None }
    }

    /// The id of the fund's open position.
    pub fn open_position(&self) -> (id: Option<u32>)
        ensures
            id == self.spec_open_position(),
    {
        self.open_position_id
    }

    /// The phase of position `id`, if the fund has it.
    pub fn phase(&self, id: u32) -> (phase: Option<PositionPhase>)
        ensures
            phase == if self.spec_phases().contains_key(id) {
                Some(self.spec_phases()[id])
            } else {
                None
            },
    {
        broadcast use vstd::std_specs::hash::group_hash_axioms;

        match self.phases.get(&id) {
            Some(p) => Some(*p),
            None => None,
        }
    }

    /// Records a position (a new pending one, or one whose phase changed).
    pub fn record(&mut self, id: u32, phase: PositionPhase)
        ensures
            final(self).spec_phases() == old(self).spec_phases().insert(id, phase),
            final(self).spec_open_position() == old(self).spec_open_position(),
    {
        broadcast use vstd::std_specs::hash::group_hash_axioms;

        self.phases.insert(id, phase);
    }

    /// Applies the fill of position `id`'s order (see [`fill_applied`]).
    pub fn apply_fill(&mut self, id: u32, effects: FillEffects) -> (outcome: Result<FillOutcome, FillError>)
        ensures
            ({
                let (r, m, o) = fill_applied(old(self).spec_phases(), old(self).spec_open_position(), id, effects);
                &&& outcome == r
                &&& final(self).spec_phases() == m
                &&& final(self).spec_open_position() == o
            }),
    {
        broadcast use vstd::std_specs::hash::group_hash_axioms;

        let phase = match self.phases.get(&id) {
            None => return Ok(FillOutcome::Ignored),
            Some(p) => *p,
        };
        if phase == PositionPhase::Open {
            return Ok(FillOutcome::Ignored);
        }
        let open = self.open_position_id;
        let fills_order = match open {
            Some(oid) => oid != id,
            None => true,
        };
        let p = if fills_order {
            match effects.order_phase {
                None => return Err(FillError::Refused),
                Some(p) => {
                    if p == PositionPhase::Open {
                        self.phases.remove(&id);
                    } else {
                        self.phases.insert(id, p);
                    }
                    p
                },
            }
        } else {
            phase
        };
        match open {
            Some(oid) => {
                if !self.phases.contains_key(&oid) {
                    return Err(FillError::PositionNotFound);
                }
                match effects.open_phase {
                    None => return Err(FillError::Refused),
                    Some(q) => {
                        self.phases.insert(oid, q);
                    },
                }
            },
            None => {
                if p == PositionPhase::Open {
                    self.phases.insert(id, PositionPhase::Open);
                    self.open_position_id = Some(id);
                }
            },
        }
        match self.open_position_id {
            Some(x) => {
                let closed = match self.phases.get(&x) {
                    Some(q) => *q == PositionPhase::Closed,
                    None => false,
                };
                if closed {
                    self.phases.remove(&x);
                    self.open_position_id = None;
                    Ok(FillOutcome::Applied { closed: Some(x) })
                } else {
                    Ok(FillOutcome::Applied { closed: None })
                }
            },
            None => Ok(FillOutcome::Applied { closed: None }),
        }
    }
}


/// The confidence a signal closes with: its own, zero when it carries none.
pub open spec fn signal_confidence_or_zero(signal_confidence: Option<DecimalValue>) -> DecimalValue {
    match signal_confidence {
        Some(c) => c,
        None => dec(0, 0),
    }
}

/// A close or trim signal against a position's side always closes it, whatever
/// the position's own limits and expiry say: a buy-close on a short position or
/// a sell-close on a long one because the trend changed, a buy-trim on a short
/// position or a sell-trim on a long one to trim it; each with the signal's
/// confidence (zero when it carries none), after cancelling all orders, and
/// counted as such.
pub proof fn lemma_signal_against_position_closes(
    signal_confidence: Option<DecimalValue>,
    position_reason: Option<ReasonForClose>,
    open_expired: bool,
)
    ensures
        close_decision_for(CloseSignal::BuyClose, signal_confidence, OrderSide::Short, position_reason, open_expired)
            == (CloseDecision {
            reason: Some(ReasonForClose::TrendChanged),
            confidence: signal_confidence_or_zero(signal_confidence),
            cancel_all_orders: true,
            counted: Some(CloseCount::TrendChanged),
        }),
        close_decision_for(CloseSignal::SellClose, signal_confidence, OrderSide::Long, position_reason, open_expired)
            == (CloseDecision {
            reason: Some(ReasonForClose::TrendChanged),
            confidence: signal_confidence_or_zero(signal_confidence),
            cancel_all_orders: true,
            counted: Some(CloseCount::TrendChanged),
        }),
        close_decision_for(CloseSignal::BuyTrim, signal_confidence, OrderSide::Short, position_reason, open_expired)
            == (CloseDecision {
            reason: Some(ReasonForClose::TrimPosition),
            confidence: signal_confidence_or_zero(signal_confidence),
            cancel_all_orders: true,
            counted: Some(CloseCount::Trim),
        }),
        close_decision_for(CloseSignal::SellTrim, signal_confidence, OrderSide::Long, position_reason, open_expired)
            == (CloseDecision {
            reason: Some(ReasonForClose::TrimPosition),
            confidence: signal_confidence_or_zero(signal_confidence),
            cancel_all_orders: true,
            counted: Some(CloseCount::Trim),
        }),
{
}

/// A signal on the position's own side (or none) never closes it by itself:
/// the position closes whole for its own take-profit or stop (counted as
/// such), otherwise it expires when its opening timed out (counted), otherwise
/// it stays; no order is cancelled.
pub proof fn lemma_signal_with_position_defers(
    signal: CloseSignal,
    signal_confidence: Option<DecimalValue>,
    side: OrderSide,
    position_reason: Option<ReasonForClose>,
    open_expired: bool,
)
    requires
        signal == CloseSignal::Hold || (side == OrderSide::Long && (signal == CloseSignal::BuyClose || signal
            == CloseSignal::BuyTrim)) || (side == OrderSide::Short && (signal == CloseSignal::SellClose || signal
            == CloseSignal::SellTrim)),
    ensures
        ({
            let d = close_decision_for(signal, signal_confidence, side, position_reason, open_expired);
            &&& !d.cancel_all_orders
            &&& d.confidence == dec(1, 0)
            &&& d.reason == match position_reason {
                Some(r) => Some(r),
                None => if open_expired {
                    Some(ReasonForClose::Expired)
                } else {
                    None
                },
            }
            &&& position_reason == Some(ReasonForClose::TakeProfit) ==> d.counted == Some(CloseCount::TakeProfit)
            &&& position_reason == Some(ReasonForClose::CutLoss) ==> d.counted == Some(CloseCount::CutLoss)
            &&& position_reason is None && open_expired ==> d.counted == Some(CloseCount::Expired)
            &&& position_reason is None && !open_expired ==> d.counted is None
        }),
{
}

/// Where an opening order is placed and what it aims for: at the price the
/// signal asked for; otherwise, with a spread configured, one spread (the ATR of
/// the term times the spread) below the current price for a buy and above it
/// for a sell; otherwise at the current price. Its take-profit target lies one
/// take-profit distance above the current price for a buy and below it for a
/// sell. It is on the signal's side, buys the signal's amount times its
/// confidence (or the trading amount over the order price, times the
/// confidence) and is worth less than the fund holds.
pub proof fn lemma_open_order_placement(
    current_price: DecimalValue,
    signal: OpenSignal,
    settings: OpenSettings,
    readings: MarketReadings,
    fund_amount: DecimalValue,
)
    ensures
        open_order_for(current_price, signal, settings, readings, fund_amount) matches Ok(Some(o)) ==> {
            &&& o.side == signal.side
            &&& match signal.order_price {
                Some(p) => o.order_price == p,
                None => match settings.atr_spread {
                    None => o.order_price == current_price,
                    Some(s) => match decimal_product(readings.atr_of_term, s) {
                        Some(spread) => if signal.side == OrderSide::Long {
                            decimal_difference(current_price, spread) == Some(o.order_price)
                        } else {
                            decimal_sum(current_price, spread) == Some(o.order_price)
                        },
                        None => false,
                    },
                },
            }
            &&& match take_profit_distance_for(current_price, settings.take_profit_ratio, readings.atr, settings.risk_reward) {
                Ok(Some(d)) => if signal.side == OrderSide::Long {
                    decimal_sum(current_price, d) == Some(o.target_price)
                } else {
                    decimal_difference(current_price, d) == Some(o.target_price)
                },
                _ => false,
            }
            &&& match signal.amount_in_usd {
                Some(a) => decimal_product(a, signal.confidence) == Some(o.token_amount),
                None => match decimal_quotient(settings.trading_amount, o.order_price) {
                    Some(units) => decimal_product(units, signal.confidence) == Some(o.token_amount),
                    None => false,
                },
            }
            &&& decimal_product(o.token_amount, o.order_price) matches Some(value) && value_lt(value, fund_amount)
        },
{
}


/// `price` is where an opening order for `signal` belongs: the price the signal
/// asked for; otherwise one spread below the current price for a buy and above
/// it for a sell; otherwise the current price.
pub open spec fn is_opening_price(
    current_price: DecimalValue,
    signal: OpenSignal,
    settings: OpenSettings,
    readings: MarketReadings,
    price: DecimalValue,
) -> bool {
    match signal.order_price {
        Some(p) => price == p,
        None => match settings.atr_spread {
            None => price == current_price,
            Some(s) => match decimal_product(readings.atr_of_term, s) {
                Some(spread) => if signal.side == OrderSide::Long {
                    decimal_difference(current_price, spread) == Some(price)
                } else {
                    decimal_sum(current_price, spread) == Some(price)
                },
                None => false,
            },
        },
    }
}

/// A fund passes on an opening signal only for want of a target or of funds:
/// when the computation succeeds with no order, either there is no take-profit
/// distance, or the order at its proper price, for its proper amount, would be
/// worth at least what the fund holds.
pub proof fn lemma_open_order_skipped_only_for_cause(
    current_price: DecimalValue,
    signal: OpenSignal,
    settings: OpenSettings,
    readings: MarketReadings,
    fund_amount: DecimalValue,
)
    ensures
        open_order_for(current_price, signal, settings, readings, fund_amount) == Ok::<
            Option<OpenOrder>,
            DecimalOverflow,
        >(None) ==> take_profit_distance_for(
            current_price,
            settings.take_profit_ratio,
            readings.atr,
            settings.risk_reward,
        ) == Ok::<Option<DecimalValue>, DecimalOverflow>(None) || forall|price: DecimalValue, amount: DecimalValue, value: DecimalValue|
            is_opening_price(current_price, signal, settings, readings, price) && (match signal.amount_in_usd {
                Some(a) => decimal_product(a, signal.confidence) == Some(amount),
                None => match decimal_quotient(settings.trading_amount, price) {
                    Some(units) => decimal_product(units, signal.confidence) == Some(amount),
                    None => false,
                },
            }) && decimal_product(amount, price) == Some(value) ==> !value_lt(value, fund_amount),
{
}


/// Whether the opening pass passes over `action`: it opens nothing, or its
/// signal gives no order (no target, or not affordable).
pub open spec fn passed_over(
    action: TradeAction,
    current_price: DecimalValue,
    settings: OpenSettings,
    readings: MarketReadings,
    fund_amount: DecimalValue,
) -> bool {
    match open_signal_of(action) {
        None => true,
        Some(signal) => open_order_for(current_price, signal, settings, readings, fund_amount) == Ok::<
            Option<OpenOrder>,
            DecimalOverflow,
        >(None),
    }
}

/// The opening pass takes the actions in order and skips exactly those that
/// give no order: the order it finds from `from` is that of the first action at
/// or after `from` whose signal gives one, every action before it is passed
/// over, and when it finds none, every action from `from` on is passed over.
pub proof fn lemma_pass_takes_first_order(
    actions: Seq<TradeAction>,
    from: int,
    current_price: DecimalValue,
    settings: OpenSettings,
    readings: MarketReadings,
    fund_amount: DecimalValue,
)
    requires
        0 <= from,
    ensures
        match first_order_from(actions, from, current_price, settings, readings, fund_amount) {
            Ok(Some((i, o))) => {
                &&& from <= i < actions.len()
                &&& open_signal_of(actions[i]) matches Some(signal) && open_order_for(
                    current_price,
                    signal,
                    settings,
                    readings,
                    fund_amount,
                ) == Ok::<Option<OpenOrder>, DecimalOverflow>(Some(o))
                &&& forall|j: int|
                    from <= j < i ==> passed_over(#[trigger] actions[j], current_price, settings, readings, fund_amount)
            },
            Ok(None) => forall|j: int|
                from <= j < actions.len() ==> passed_over(
                    #[trigger] actions[j],
                    current_price,
                    settings,
                    readings,
                    fund_amount,
                ),
            Err(_) => exists|j: int|
                from <= j < actions.len() && (open_signal_of(#[trigger] actions[j]) matches Some(signal)
                    && open_order_for(current_price, signal, settings, readings, fund_amount) is Err),
        },
    decreases actions.len() - from,
{
    if from < actions.len() {
        lemma_pass_takes_first_order(actions, from + 1, current_price, settings, readings, fund_amount);
        match first_order_from(actions, from + 1, current_price, settings, readings, fund_amount) {
            Err(_) => {
                let j = choose|j: int|
                    from + 1 <= j < actions.len() && (open_signal_of(#[trigger] actions[j]) matches Some(signal)
                        && open_order_for(current_price, signal, settings, readings, fund_amount) is Err);
                assert(from <= j);
            },
            _ => {},
        }
    }
}

} // verus!
