use vstd::prelude::*;

use crate::decimal::{
    dec, decimal_difference, decimal_rounded, is_valid_decimal, minus, round_dp, DecimalOverflow, DecimalValue,
};

verus! {

/// The `limit` last entries of a series, in order, or all of them when there
/// are no more than `limit`.
pub open spec fn newest<T>(points: Seq<T>, limit: u32) -> Seq<T> {
    if points.len() > limit {
        points.subrange(points.len() - limit, points.len() as int)
    } else {
        points
    }
}

/// Keeps only the `limit` most recent entries of a series (the last ones), or
/// all of them when there are no more than `limit`.
pub fn keep_latest<T>(points: &mut Vec<T>, limit: u32)
    ensures
        final(points)@ == newest(old(points)@, limit),
{
    let limit = limit as usize;
    if points.len() > limit {
        let start = points.len() - limit;
        let latest = points.split_off(start);
        *points = latest;
    }
}

/// Whether a closed position is kept as training data: it closed by taking
/// profit, cutting loss or expiring.
pub open spec fn is_labelled_close(closed_reason: Option<Seq<char>>) -> bool {
    match closed_reason {
        Some(r) => r == "TakeProfit"@ || r == "CutLoss"@ || r == "Expired"@,
        None => false,
    }
}

fn string_is(text: &String, literal: &str) -> (same: bool)
    ensures
        same == (text@ == literal@),
{
    let other = String::from_str(literal);
    *text == other
}

/// The training labels of a position, from the reason it closed for (`None`
/// while it is not closed), its profit and profit ratio, and the ticks it took
/// to fill: whether a labelled close made a profit (1 or 0); the profit ratio of
/// a labelled close rounded to 4 decimals when positive, else 0; and the ticks
/// to fill when the position made a profit, else -1.
pub fn training_labels(
    closed_reason: Option<&String>,
    pnl: DecimalValue,
    pnl_ratio: DecimalValue,
    tick_to_fill: u32,
) -> (labels: (DecimalValue, DecimalValue, Option<DecimalValue>))
    requires
        is_valid_decimal(pnl_ratio),
    ensures
        ({
            let valid = is_labelled_close(
                match closed_reason {
                    Some(r) => Some(r@),
                    None => None,
                },
            );
            &&& labels.0 == if valid && pnl.mantissa > 0 {
                dec(1, 0)
            } else {
                dec(0, 0)
            }
            &&& labels.1 == if valid && pnl_ratio.mantissa > 0 {
                decimal_rounded(pnl_ratio, 4)
            } else {
                dec(0, 0)
            }
            &&& labels.2 == if pnl.mantissa > 0 {
                Some(dec(tick_to_fill as int, 0))
            } else {
                Some(dec(-1, 0))
            }
        }),
{
    let valid = match closed_reason {
        Some(r) => string_is(r, "TakeProfit") || string_is(r, "CutLoss") || string_is(r, "Expired"),
        None => false,
    };
    let zero = DecimalValue { mantissa: 0, scale: 0 };
    let won = if valid && pnl.mantissa > 0 {
        DecimalValue { mantissa: 1, scale: 0 }
    } else {
        zero
    };
    let ratio = if valid && pnl_ratio.mantissa > 0 {
        round_dp(pnl_ratio, 4)
    } else {
        zero
    };
    let ticks = if pnl.mantissa > 0 {
        Some(DecimalValue { mantissa: tick_to_fill as i128, scale: 0 })
    } else {
        Some(DecimalValue { mantissa: -1, scale: 0 })
    };
    (won, ratio, ticks)
}


/// Price series of one trader, by token name.
pub type TokenSeries<T> = Vec<(String, Vec<T>)>;

/// The series of `tokens`, each cut to its `limit` newest points (see
/// [`newest`]), under the same names and in the same order.
pub open spec fn newest_per_token<T>(before: Seq<(String, Vec<T>)>, after: Seq<(String, Vec<T>)>, limit: u32) -> bool {
    &&& after.len() == before.len()
    &&& forall|j: int|
        0 <= j < before.len() ==> (#[trigger] after[j]).0@ == before[j].0@ && after[j].1@ == newest(
            before[j].1@,
            limit,
        )
}

fn latest_of_tokens<T>(tokens: TokenSeries<T>, limit: u32) -> (latest: TokenSeries<T>)
    ensures
        newest_per_token(tokens@, latest@, limit),
{
    let ghost start = tokens@;
    let mut rest = tokens;
    let mut out: TokenSeries<T> = Vec::new();
    while rest.len() > 0
        invariant
            out@.len() + rest@.len() == start.len(),
            rest@ == start.skip(out@.len() as int),
            forall|j: int|
                0 <= j < out@.len() ==> (#[trigger] out@[j]).0@ == start[j].0@ && out@[j].1@ == newest(
                    start[j].1@,
                    limit,
                ),
        decreases rest@.len(),
    {
        let (name, mut series) = rest.remove(0);
        keep_latest(&mut series, limit);
        out.push((name, series));
        assert(rest@ =~= start.skip(out@.len() as int));
    }
    out
}

/// The latest market data from the read database: nothing when there is no read
/// database (`data` is `None`); all of it without a limit; with a limit of `n`,
/// every trader's every token series cut to its `n` newest points, under the
/// same names and in the same order.
pub fn latest_price_market_data<T>(data: Option<Vec<(String, TokenSeries<T>)>>, limit: Option<u32>) -> (latest: Vec<
    (String, TokenSeries<T>),
>)
    ensures
        match data {
            None => latest@.len() == 0,
            Some(d) => match limit {
                None => latest@ == d@,
                Some(n) => {
                    &&& latest@.len() == d@.len()
                    &&& forall|i: int|
                        0 <= i < d@.len() ==> (#[trigger] latest@[i]).0@ == d@[i].0@ && newest_per_token(
                            d@[i].1@,
                            latest@[i].1@,
                            n,
                        )
                },
            },
        },
{
    let d = match data {
        None => return Vec::new(),
        Some(d) => d,
    };
    let n = match limit {
        None => return d,
        Some(n) => n,
    };
    let ghost start = d@;
    let mut rest = d;
    let mut out: Vec<(String, TokenSeries<T>)> = Vec::new();
    while rest.len() > 0
        invariant
            out@.len() + rest@.len() == start.len(),
            rest@ == start.skip(out@.len() as int),
            forall|i: int|
                0 <= i < out@.len() ==> (#[trigger] out@[i]).0@ == start[i].0@ && newest_per_token(
                    start[i].1@,
                    out@[i].1@,
                    n,
                ),
        decreases rest@.len(),
    {
        let (trader, tokens) = rest.remove(0);
        let cut = latest_of_tokens(tokens, n);
        out.push((trader, cut));
        assert(rest@ =~= start.skip(out@.len() as int));
    }
    out
}


/// Whether a position is written to the position log: only when positions are
/// saved at all, and only once it is closed.
pub fn logs_position(save_position: bool, is_closed: bool) -> (logs: bool)
    ensures
        logs == (save_position && is_closed),
{
    save_position && is_closed
}

/// Six readings of an indicator, as the market data hands them out.
pub type Readings = (DecimalValue, DecimalValue, DecimalValue, DecimalValue, DecimalValue, DecimalValue);

/// What a position recorded of the market when it opened.
#[derive(Clone, Copy, Debug)]
pub struct PositionReadings {
    pub price: Readings,
    pub atr: Readings,
    pub rsi: Readings,
    pub last_volume: Option<DecimalValue>,
    pub last_num_trades: Option<u64>,
    pub last_funding_rate: Option<DecimalValue>,
    pub last_open_interest: Option<DecimalValue>,
    pub last_oracle_price: Option<DecimalValue>,
    pub atr_spread: DecimalValue,
    pub open_tick_count_max: u32,
    pub take_profit_ratio: DecimalValue,
    pub atr_term: DecimalValue,
}

pub open spec fn readings_valid(r: Readings) -> bool {
    is_valid_decimal(r.0) && is_valid_decimal(r.1) && is_valid_decimal(r.2) && is_valid_decimal(r.3)
        && is_valid_decimal(r.4) && is_valid_decimal(r.5)
}

pub open spec fn optional_valid(v: Option<DecimalValue>) -> bool {
    v matches Some(d) ==> is_valid_decimal(d)
}

pub open spec fn position_readings_valid(r: PositionReadings) -> bool {
    &&& readings_valid(r.price)
    &&& readings_valid(r.atr)
    &&& readings_valid(r.rsi)
    &&& optional_valid(r.last_volume)
    &&& optional_valid(r.last_funding_rate)
    &&& optional_valid(r.last_open_interest)
    &&& optional_valid(r.last_oracle_price)
    &&& is_valid_decimal(r.atr_spread)
    &&& is_valid_decimal(r.take_profit_ratio)
    &&& is_valid_decimal(r.atr_term)
}

/// A decimal rounded to 4 places.
pub open spec fn r4(d: DecimalValue) -> DecimalValue {
    decimal_rounded(d, 4)
}

/// An optional reading, zero when missing.
pub open spec fn or_zero(v: Option<DecimalValue>) -> DecimalValue {
    match v {
        Some(d) => d,
        None => dec(0, 0),
    }
}

/// The 29 numeric training inputs logged with a position, in order: prices 3 to
/// 5, ATRs 1 to 5, RSIs 1 to 5, the last volume, the last number of trades, the
/// last funding rate and open interest (missing ones as 0), the oracle price
/// minus price 0, a 0, the ATR spread, the open tick limit, 1 when a
/// take-profit ratio is set (else 0), the ATR term and six 0s; every decimal
/// reading is rounded to 4 places first. `None` where rust_decimal cannot
/// subtract.
pub open spec fn position_inputs(r: PositionReadings) -> Option<Seq<DecimalValue>> {
    match decimal_difference(r4(or_zero(r.last_oracle_price)), r4(r.price.0)) {
        None => None,
        Some(oracle_gap) => Some(
            seq![
                r4(r.price.3), r4(r.price.4), r4(r.price.5),
                r4(r.atr.1), r4(r.atr.2), r4(r.atr.3), r4(r.atr.4), r4(r.atr.5),
                r4(r.rsi.1), r4(r.rsi.2), r4(r.rsi.3), r4(r.rsi.4), r4(r.rsi.5),
                r4(or_zero(r.last_volume)),
                dec(match r.last_num_trades { Some(n) => n as int, None => 0 }, 0),
                r4(or_zero(r.last_funding_rate)),
                r4(or_zero(r.last_open_interest)),
                oracle_gap,
                dec(0, 0),
                r4(r.atr_spread),
                dec(r.open_tick_count_max as int, 0),
                if r.take_profit_ratio.mantissa == 0 { dec(0, 0) } else { dec(1, 0) },
                r4(r.atr_term),
                dec(0, 0), dec(0, 0), dec(0, 0), dec(0, 0), dec(0, 0), dec(0, 0),
            ],
        ),
    }
}

/// The numeric training inputs of a position (see [`position_inputs`]).
#[verifier::rlimit(40)]
pub fn training_inputs(r: PositionReadings) -> (inputs: Result<Vec<DecimalValue>, DecimalOverflow>)
    requires
        position_readings_valid(r),
    ensures
        match position_inputs(r) {
            Some(v) => inputs matches Ok(x) && x@ == v,
            None => inputs is Err,
        },
{
    let zero = DecimalValue { mantissa: 0, scale: 0 };
    let oracle = match r.last_oracle_price {
        Some(d) => d,
        None => zero,
    };
    let oracle_gap = minus(round_dp(oracle, 4), round_dp(r.price.0, 4))?;
    let volume = match r.last_volume {
        Some(d) => d,
        None => zero,
    };
    let trades = match r.last_num_trades {
        Some(n) => DecimalValue { mantissa: n as i128, scale: 0 },
        None => zero,
    };
    let funding = match r.last_funding_rate {
        Some(d) => d,
        None => zero,
    };
    let interest = match r.last_open_interest {
        Some(d) => d,
        None => zero,
    };
    let take_profit = if r.take_profit_ratio.mantissa == 0 {
        zero
    } else {
        DecimalValue { mantissa: 1, scale: 0 }
    };
    let inputs = vec![
        round_dp(r.price.3, 4), round_dp(r.price.4, 4), round_dp(r.price.5, 4),
        round_dp(r.atr.1, 4), round_dp(r.atr.2, 4), round_dp(r.atr.3, 4), round_dp(r.atr.4, 4), round_dp(r.atr.5, 4),
        round_dp(r.rsi.1, 4), round_dp(r.rsi.2, 4), round_dp(r.rsi.3, 4), round_dp(r.rsi.4, 4), round_dp(r.rsi.5, 4),
        round_dp(volume, 4),
        trades,
        round_dp(funding, 4),
        round_dp(interest, 4),
        oracle_gap,
        zero,
        round_dp(r.atr_spread, 4),
        DecimalValue { mantissa: r.open_tick_count_max as i128, scale: 0 },
        take_profit,
        round_dp(r.atr_term, 4),
        zero, zero, zero, zero, zero, zero,
    ];
    assert(inputs@ =~= position_inputs(r).unwrap());
    Ok(inputs)
}


/// What a closed position holds for its log record.
pub struct PositionFacts {
    pub id: u32,
    pub fund_name: String,
    pub order_id: String,
    pub ordered_price: DecimalValue,
    /// The state as text, e.g. `Closed(TakeProfit)`.
    pub state_text: String,
    /// The reason it closed for; `None` while it is not closed.
    pub closed_reason: Option<String>,
    pub token_name: String,
    pub open_time_str: String,
    pub open_timestamp: i64,
    pub close_time_str: String,
    pub average_open_price: DecimalValue,
    pub is_long: bool,
    pub close_price: DecimalValue,
    pub asset_in_usd: DecimalValue,
    pub pnl: DecimalValue,
    pub pnl_ratio: DecimalValue,
    pub fee: DecimalValue,
    pub tick_to_fill: u32,
    pub readings: PositionReadings,
}

/// The record written to the position log.
pub struct PositionLog {
    pub id: Option<u32>,
    pub fund_name: String,
    pub order_id: String,
    pub ordered_price: DecimalValue,
    pub state: String,
    pub token_name: String,
    pub open_time_str: String,
    pub open_timestamp: i64,
    pub close_time_str: String,
    pub average_open_price: DecimalValue,
    /// `Long` or `Short`.
    pub position_type: String,
    pub close_price: DecimalValue,
    pub asset_in_usd: DecimalValue,
    pub pnl: DecimalValue,
    pub fee: DecimalValue,
    /// The numeric training inputs (see [`position_inputs`]).
    pub inputs: Vec<DecimalValue>,
    pub output_1: DecimalValue,
    pub output_2: DecimalValue,
    pub output_3: Option<DecimalValue>,
}

/// The log record of a position: nothing unless positions are saved and it is
/// closed; otherwise its facts as they are, its type as `Long` or `Short`, its
/// training inputs (see [`position_inputs`]; an error where rust_decimal cannot
/// compute them) and its labels (see [`training_labels`]).
pub fn position_log(save_position: bool, p: PositionFacts) -> (record: Result<Option<PositionLog>, DecimalOverflow>)
    requires
        position_readings_valid(p.readings),
        is_valid_decimal(p.pnl_ratio),
    ensures
        !(save_position && p.closed_reason is Some) ==> record == Ok::<Option<PositionLog>, DecimalOverflow>(None),
        save_position && p.closed_reason is Some ==> match position_inputs(p.readings) {
            None => record is Err,
            Some(inputs) => record matches Ok(Some(log)) && {
                let valid = is_labelled_close(
                    match p.closed_reason {
                        Some(r) => Some(r@),
                        None => None,
                    },
                );
                &&& log.id == Some(p.id)
                &&& log.fund_name@ == p.fund_name@
                &&& log.order_id@ == p.order_id@
                &&& log.ordered_price == p.ordered_price
                &&& log.state@ == p.state_text@
                &&& log.token_name@ == p.token_name@
                &&& log.open_time_str@ == p.open_time_str@
                &&& log.open_timestamp == p.open_timestamp
                &&& log.close_time_str@ == p.close_time_str@
                &&& log.average_open_price == p.average_open_price
                &&& log.position_type@ == if p.is_long {
                    "Long"@
                } else {
                    "Short"@
                }
                &&& log.close_price == p.close_price
                &&& log.asset_in_usd == p.asset_in_usd
                &&& log.pnl == p.pnl
                &&& log.fee == p.fee
                &&& log.inputs@ == inputs
                &&& log.output_1 == if valid && p.pnl.mantissa > 0 {
                    dec(1, 0)
                } else {
                    dec(0, 0)
                }
                &&& log.output_2 == if valid && p.pnl_ratio.mantissa > 0 {
                    decimal_rounded(p.pnl_ratio, 4)
                } else {
                    dec(0, 0)
                }
                &&& log.output_3 == if p.pnl.mantissa > 0 {
                    Some(dec(p.tick_to_fill as int, 0))
                } else {
                    Some(dec(-1, 0))
                }
            },
        },
{
    if !logs_position(save_position, p.closed_reason.is_some()) {
        return Ok(None);
    }
    let inputs = training_inputs(p.readings)?;
    let (o1, o2, o3) = training_labels(p.closed_reason.as_ref(), p.pnl, p.pnl_ratio, p.tick_to_fill);
    let position_type = if p.is_long {
        String::from_str("Long")
    } else {
        String::from_str("Short")
    };
    Ok(
        Some(
            PositionLog {
                id: Some(p.id),
                fund_name: p.fund_name,
                order_id: p.order_id,
                ordered_price: p.ordered_price,
                state: p.state_text,
                token_name: p.token_name,
                open_time_str: p.open_time_str,
                open_timestamp: p.open_timestamp,
                close_time_str: p.close_time_str,
                average_open_price: p.average_open_price,
                position_type,
                close_price: p.close_price,
                asset_in_usd: p.asset_in_usd,
                pnl: p.pnl,
                fee: p.fee,
                inputs,
                output_1: o1,
                output_2: o2,
                output_3: o3,
            },
        ),
    )
}

} // verus!
