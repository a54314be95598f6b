use vstd::prelude::*;

use crate::decimal::{
    abs, absolute, decimal_difference, decimal_product, decimal_quotient, decimal_rounded,
    decimal_sum, divided_by, is_valid_decimal, less_than, minus, round_dp, times, value_lt,
    DecimalOverflow, DecimalValue,
};

verus! {

/// The short and long sampling terms of a trader, in minutes.
#[derive(Clone, Copy, Debug)]
pub struct SampleInterval {
    short_term: usize,
    long_term: usize,
}

/// The number of seconds in a minute.
pub const SECONDS_IN_MINUTE: usize = 60;

/// `minutes` minutes counted in ticks of `interval_secs` seconds (rounded down).
pub open spec fn minutes_in_ticks(minutes: usize, interval_secs: i64) -> int {
    (minutes * SECONDS_IN_MINUTE) as int / ((interval_secs as usize) as int)
}

impl SampleInterval {
    pub closed spec fn spec_short_term(&self) -> usize {
        self.short_term
    }

    pub closed spec fn spec_long_term(&self) -> usize {
        self.long_term
    }

    pub fn new(short_term: usize, long_term: usize) -> (interval: Self)
        ensures
            interval.spec_short_term() == short_term,
            interval.spec_long_term() == long_term,
    {
        Self { short_term, long_term }
    }

    /// The short, long and trading periods of a trader, in ticks of
    /// `interval_secs` seconds: `minutes * 60 / interval_secs`, with the trading
    /// interval `trade_interval` given in minutes too.
    pub fn trade_periods(&self, trade_interval: usize, interval_secs: i64) -> (periods: (
        usize,
        usize,
        usize,
    ))
        requires
            (interval_secs as usize) > 0,
            self.spec_short_term() * SECONDS_IN_MINUTE <= usize::MAX,
            self.spec_long_term() * SECONDS_IN_MINUTE <= usize::MAX,
            trade_interval * SECONDS_IN_MINUTE <= usize::MAX,
        ensures
            periods.0 == minutes_in_ticks(self.spec_short_term(), interval_secs),
            periods.1 == minutes_in_ticks(self.spec_long_term(), interval_secs),
            periods.2 == minutes_in_ticks(trade_interval, interval_secs),
    {
        let ticks = interval_secs as usize;
        (
            self.short_term * SECONDS_IN_MINUTE / ticks,
            self.long_term * SECONDS_IN_MINUTE / ticks,
            trade_interval * SECONDS_IN_MINUTE / ticks,
        )
    }
}


/// `price` rounded to a whole number of ticks (ties to even), with a tick of 1
/// when none is given.
pub fn round_price(price: DecimalValue, min_tick: Option<DecimalValue>) -> (rounded: Result<
    DecimalValue,
    DecimalOverflow,
>)
    requires
        is_valid_decimal(price),
        min_tick matches Some(t) ==> is_valid_decimal(t),
    ensures
        ({
            let tick = match min_tick {
                Some(t) => t,
                None => DecimalValue { mantissa: 1, scale: 0 },
            };
            rounded == match decimal_quotient(price, tick) {
                Some(q) => match decimal_product(decimal_rounded(q, 0), tick) {
                    Some(r) => Ok(r),
                    None => Err(DecimalOverflow),
                },
                None => Err(DecimalOverflow),
            }
        }),
{
    let tick = match min_tick {
        Some(t) => t,
        None => DecimalValue { mantissa: 1, scale: 0 },
    };
    let ticks = divided_by(price, tick)?;
    let whole_ticks = round_dp(ticks, 0);
    times(whole_ticks, tick)
}

/// Whether the balance has drawn down by more than `max_dd_ratio` of the
/// initial balance: the loss (initial minus current balance), when it is not
/// negative, divided by the initial balance, exceeds the ratio.
pub fn is_max_dd_occurred(
    initial_balance: DecimalValue,
    balance: DecimalValue,
    max_dd_ratio: DecimalValue,
) -> (occurred: Result<bool, DecimalOverflow>)
    requires
        is_valid_decimal(initial_balance),
        is_valid_decimal(balance),
        is_valid_decimal(max_dd_ratio),
    ensures
        occurred == match decimal_difference(initial_balance, balance) {
            Some(lost) => if lost.mantissa >= 0 {
                match decimal_quotient(lost, initial_balance) {
                    Some(ratio) => Ok(value_lt(max_dd_ratio, ratio)),
                    None => Err(DecimalOverflow),
                }
            } else {
                Ok(false)
            },
            None => Err(DecimalOverflow),
        },
{
    let lost = minus(initial_balance, balance)?;
    if lost.mantissa >= 0 {
        let ratio = divided_by(lost, initial_balance)?;
        if less_than(max_dd_ratio, ratio) {
            return Ok(true);
        }
    }
    Ok(false)
}

/// The running sum of `amounts` from zero, as rust_decimal adds them (`None` once
/// a sum overflows).
pub open spec fn decimal_total(amounts: Seq<DecimalValue>) -> Option<DecimalValue>
    decreases amounts.len(),
{
    if amounts.len() == 0 {
        Some(DecimalValue { mantissa: 0, scale: 0 })
    } else {
        match decimal_total(amounts.drop_last()) {
            Some(t) => decimal_sum(t, amounts.last()),
            None => None,
        }
    }
}

/// The amount invested over all funds: the sum of their assets, rounded to one
/// decimal (ties to even), as an absolute value.
pub fn invested_amount(assets: &Vec<DecimalValue>) -> (invested: Result<DecimalValue, DecimalOverflow>)
    requires
        forall|i: int| 0 <= i < assets@.len() ==> is_valid_decimal(#[trigger] assets@[i]),
    ensures
        invested == match decimal_total(assets@) {
            Some(t) => Ok(abs(decimal_rounded(t, 1))),
            None => Err(DecimalOverflow),
        },
{
    let mut sum = DecimalValue { mantissa: 0, scale: 0 };
    let mut i: usize = 0;
    while i < assets.len()
        invariant
            i <= assets@.len(),
            forall|k: int| 0 <= k < assets@.len() ==> is_valid_decimal(#[trigger] assets@[k]),
            decimal_total(assets@.take(i as int)) == Some(sum),
            is_valid_decimal(sum),
        decreases assets@.len() - i,
    {
        assert(assets@.take(i as int + 1).drop_last() =~= assets@.take(i as int));
        match crate::decimal::checked_add(sum, assets[i]) {
            Some(next) => {
                sum = next;
            },
            None => {
                proof {
                    lemma_total_stays_none(assets@, i as int + 1);
                }
                return Err(DecimalOverflow);
            },
        }
        i = i + 1;
    }
    assert(assets@.take(i as int) =~= assets@);
    let rounded = round_dp(sum, 1);
    Ok(absolute(rounded))
}

/// Once the running sum overflows, it stays overflowed.
proof fn lemma_total_stays_none(amounts: Seq<DecimalValue>, n: int)
    requires
        0 <= n <= amounts.len(),
        decimal_total(amounts.take(n)) is None,
    ensures
        decimal_total(amounts) is None,
    decreases amounts.len() - n,
{
    if n < amounts.len() {
        assert(amounts.take(n + 1).drop_last() =~= amounts.take(n));
        lemma_total_stays_none(amounts, n + 1);
    } else {
        assert(amounts.take(n) =~= amounts);
    }
}


/// Integer division rounding toward zero, as Rust's `/` does on signed integers.
pub open spec fn quotient_toward_zero(a: int, b: int) -> int {
    let q = (if a < 0 { -a } else { a }) / (if b < 0 { -b } else { b });
    if (a < 0) != (b < 0) {
        -q
    } else {
        q
    }
}

/// How many ticks of `interval_secs` seconds a closing order stays effective:
/// `close_order_effective_duration_secs / interval_secs`, rounded toward zero.
pub fn close_order_tick_count_max(close_order_effective_duration_secs: i64, interval_secs: i64) -> (ticks: u32)
    requires
        interval_secs != 0,
        0 <= quotient_toward_zero(close_order_effective_duration_secs as int, interval_secs as int) <= u32::MAX,
    ensures
        ticks == quotient_toward_zero(close_order_effective_duration_secs as int, interval_secs as int),
{
    let a: i128 = close_order_effective_duration_secs as i128;
    let b: i128 = interval_secs as i128;
    let abs_a: i128 = if a < 0 { -a } else { a };
    let abs_b: i128 = if b < 0 { -b } else { b };
    let q: i128 = abs_a / abs_b;
    if (a < 0) != (b < 0) {
        assert(q == 0);
        0
    } else {
        q as u32
    }
}


/// The back-test price point of a round: the `index`-th of the token's recorded
/// points (`None` when none were recorded for the token), none once they run out.
pub fn back_test_point<T: Copy>(points: Option<&Vec<T>>, index: usize) -> (point: Option<T>)
    ensures
        point == match points {
            Some(p) => if index < p@.len() {
                Some(p@[index as int])
            } else {
                None
            },
            None => None,
        },
{
    match points {
        Some(p) => {
            if index < p.len() {
                Some(p[index])
            } else {
                None
            }
        },
        None => None,
    }
}


/// The tokens in `tokens`, each once, in the order they first appear.
pub open spec fn first_occurrences(tokens: Seq<u64>) -> Seq<u64>
    decreases tokens.len(),
{
    if tokens.len() == 0 {
        Seq::empty()
    } else {
        let before = first_occurrences(tokens.drop_last());
        if before.contains(tokens.last()) {
            before
        } else {
            before.push(tokens.last())
        }
    }
}

/// The tokens whose price a round queries, one query per token: the funds'
/// tokens (`fund_tokens`, by id), each once, in the order they first appear.
pub fn distinct_tokens(fund_tokens: &Vec<u64>) -> (tokens: Vec<u64>)
    ensures
        tokens@ == first_occurrences(fund_tokens@),
{
    let mut out: Vec<u64> = Vec::new();
    let mut i: usize = 0;
    while i < fund_tokens.len()
        invariant
            i <= fund_tokens@.len(),
            out@ == first_occurrences(fund_tokens@.take(i as int)),
        decreases fund_tokens@.len() - i,
    {
        assert(fund_tokens@.take(i as int + 1).drop_last() =~= fund_tokens@.take(i as int));
        let t = fund_tokens[i];
        let mut seen = false;
        let mut j: usize = 0;
        while j < out.len()
            invariant
                j <= out@.len(),
                seen <==> exists|w: int| 0 <= w < j && out@[w] == t,
            decreases out@.len() - j,
        {
            if out[j] == t {
                seen = true;
            }
            j = j + 1;
        }
        assert(seen == out@.contains(t));
        if !seen {
            out.push(t);
        }
        i = i + 1;
    }
    assert(fund_tokens@.take(i as int) =~= fund_tokens@);
    out
}

/// The tokens a round queries are each queried once, and every fund's token is
/// among them.
pub proof fn lemma_each_token_queried_once(tokens: Seq<u64>)
    ensures
        forall|a: int, b: int|
            0 <= a < b < first_occurrences(tokens).len() ==> first_occurrences(tokens)[a] != first_occurrences(
                tokens,
            )[b],
        forall|k: int| 0 <= k < tokens.len() ==> first_occurrences(tokens).contains(#[trigger] tokens[k]),
        forall|k: int|
            0 <= k < first_occurrences(tokens).len() ==> tokens.contains(#[trigger] first_occurrences(tokens)[k]),
    decreases tokens.len(),
{
    if tokens.len() > 0 {
        let rest = tokens.drop_last();
        lemma_each_token_queried_once(rest);
        let before = first_occurrences(rest);
        assert forall|k: int| 0 <= k < tokens.len() implies first_occurrences(tokens).contains(
            #[trigger] tokens[k],
        ) by {
            if k < tokens.len() - 1 {
                assert(rest[k] == tokens[k]);
                let w = choose|w: int| 0 <= w < before.len() && before[w] == rest[k];
                if !before.contains(tokens.last()) {
                    assert(first_occurrences(tokens)[w] == tokens[k]);
                }
            } else if !before.contains(tokens.last()) {
                assert(first_occurrences(tokens)[before.len() as int] == tokens[k]);
            }
        }
        assert forall|k: int| 0 <= k < first_occurrences(tokens).len() implies tokens.contains(
            #[trigger] first_occurrences(tokens)[k],
        ) by {
            if k < before.len() {
                assert(rest.contains(before[k]));
                let w = choose|w: int| 0 <= w < rest.len() && rest[w] == before[k];
                assert(tokens[w] == rest[w]);
            } else {
                assert(tokens[tokens.len() - 1] == tokens.last());
            }
        }
    }
}

/// Whether a round can go on to query prices: outside a back test always; in a
/// back test only when every queried token still has a recorded price
/// (`points_found`, one per token); otherwise the back test is over.
pub fn back_test_ready(back_test: bool, points_found: &Vec<bool>) -> (ready: bool)
    ensures
        ready == (!back_test || forall|k: int| 0 <= k < points_found@.len() ==> #[trigger] points_found@[k]),
{
    if !back_test {
        return true;
    }
    let mut i: usize = 0;
    while i < points_found.len()
        invariant
            back_test,
            i <= points_found@.len(),
            forall|k: int| 0 <= k < i ==> #[trigger] points_found@[k],
        decreases points_found@.len() - i,
    {
        if !points_found[i] {
            assert(!points_found@[i as int]);
            return false;
        }
        i = i + 1;
    }
    true
}

/// What a round does with the market data of one (token, strategy) key.
#[derive(Clone, Copy, Debug, PartialEq, Eq, Structural)]
pub struct MarketDataStep {
    /// Add the token's rounded price to the key's market data.
    pub add_price: bool,
    /// Write the price to the database.
    pub save_price: bool,
    /// Precompute the key's models.
    pub precompute: bool,
}

/// The step for the key at `i`, whose token is `key_tokens[i]` and which has a
/// price when `priced[i]`: without a price nothing happens; with one the price
/// is added, saved when prices are saved and no earlier key of the same token
/// with a price saved it, and the models are precomputed unless the trader only
/// reads prices.
pub open spec fn market_data_step_at(
    key_tokens: Seq<u64>,
    priced: Seq<bool>,
    i: int,
    save_prices: bool,
    only_read_price: bool,
) -> MarketDataStep {
    if priced[i] {
        MarketDataStep {
            add_price: true,
            save_price: save_prices && !exists|j: int| 0 <= j < i && priced[j] && #[trigger] key_tokens[j] == key_tokens[i],
            precompute: !only_read_price,
        }
    } else {
        MarketDataStep { add_price: false, save_price: false, precompute: false }
    }
}

/// The steps of a round over the market-data keys, in order (see
/// [`market_data_step_at`]); each token's price is saved at most once.
pub fn market_data_steps(
    key_tokens: &Vec<u64>,
    priced: &Vec<bool>,
    save_prices: bool,
    only_read_price: bool,
) -> (steps: Vec<MarketDataStep>)
    requires
        priced@.len() == key_tokens@.len(),
    ensures
        steps@.len() == key_tokens@.len(),
        forall|i: int|
            0 <= i < steps@.len() ==> #[trigger] steps@[i] == market_data_step_at(
                key_tokens@,
                priced@,
                i,
                save_prices,
                only_read_price,
            ),
        forall|i: int, j: int|
            0 <= i < j < steps@.len() && (#[trigger] steps@[i]).save_price && (#[trigger] steps@[j]).save_price
                ==> key_tokens@[i] != key_tokens@[j],
{
    let mut steps: Vec<MarketDataStep> = Vec::new();
    let mut saved: Vec<u64> = Vec::new();
    let mut i: usize = 0;
    while i < key_tokens.len()
        invariant
            priced@.len() == key_tokens@.len(),
            i <= key_tokens@.len(),
            steps@.len() == i,
            forall|k: int|
                0 <= k < i ==> #[trigger] steps@[k] == market_data_step_at(
                    key_tokens@,
                    priced@,
                    k,
                    save_prices,
                    only_read_price,
                ),
            save_prices ==> forall|t: u64|
                saved@.contains(t) <==> exists|j: int| 0 <= j < i && priced@[j] && #[trigger] key_tokens@[j] == t,
        decreases key_tokens@.len() - i,
    {
        let t = key_tokens[i];
        if priced[i] {
            let mut seen = false;
            let mut j: usize = 0;
            while j < saved.len()
                invariant
                    j <= saved@.len(),
                    seen <==> exists|w: int| 0 <= w < j && saved@[w] == t,
                decreases saved@.len() - j,
            {
                if saved[j] == t {
                    seen = true;
                }
                j = j + 1;
            }
            assert(seen == saved@.contains(t));
            let save = save_prices && !seen;
            let ghost before = saved@;
            if save {
                saved.push(t);
            }
            steps.push(MarketDataStep { add_price: true, save_price: save, precompute: !only_read_price });
            proof {
                if save_prices {
                    assert forall|u: u64|
                        saved@.contains(u) <==> exists|j: int|
                            0 <= j < i + 1 && priced@[j] && #[trigger] key_tokens@[j] == u by {
                        if saved@.contains(u) {
                            if save {
                                assert(saved@ == before.push(t));
                                if u != t {
                                    let w = choose|w: int| 0 <= w < saved@.len() && saved@[w] == u;
                                    assert(before[w] == u);
                                }
                            }
                        }
                        if u == t {
                            assert(priced@[i as int] && key_tokens@[i as int] == u);
                            if save {
                                assert(saved@[before.len() as int] == t);
                            }
                        }
                        if before.contains(u) && save {
                            let w = choose|w: int| 0 <= w < before.len() && before[w] == u;
                            assert(saved@[w] == u);
                        }
                        if exists|j: int| 0 <= j < i + 1 && priced@[j] && #[trigger] key_tokens@[j] == u {
                            let j = choose|j: int| 0 <= j < i + 1 && priced@[j] && #[trigger] key_tokens@[j] == u;
                            if j < i {
                                assert(exists|j2: int| 0 <= j2 < i && priced@[j2] && #[trigger] key_tokens@[j2] == u);
                            }
                        }
                    }
                }
            }
        } else {
            steps.push(MarketDataStep { add_price: false, save_price: false, precompute: false });
            proof {
                if save_prices {
                    assert forall|u: u64|
                        saved@.contains(u) <==> exists|j: int|
                            0 <= j < i + 1 && priced@[j] && #[trigger] key_tokens@[j] == u by {
                        if exists|j: int| 0 <= j < i + 1 && priced@[j] && #[trigger] key_tokens@[j] == u {
                            let j = choose|j: int| 0 <= j < i + 1 && priced@[j] && #[trigger] key_tokens@[j] == u;
                            assert(j < i);
                        }
                    }
                }
            }
        }
        i = i + 1;
    }
    assert forall|a: int, b: int|
        0 <= a < b < steps@.len() && (#[trigger] steps@[a]).save_price && (#[trigger] steps@[b]).save_price
            implies key_tokens@[a] != key_tokens@[b] by {
        assert(steps@[a] == market_data_step_at(key_tokens@, priced@, a, save_prices, only_read_price));
        assert(steps@[b] == market_data_step_at(key_tokens@, priced@, b, save_prices, only_read_price));
        assert(priced@[a]);
    }
    steps
}


/// What a round does with a filled order it fetched.
#[derive(Clone, Copy, Debug, PartialEq, Eq, Structural)]
pub enum FillStep {
    /// The exchange rejected the order: cancel it in every fund, as already
    /// rejected.
    CancelRejected,
    /// Offer the fill to every fund; the fund whose order it is takes it.
    OfferToFunds,
}

/// The step for a filled order: rejected orders are cancelled, the others are
/// offered to the funds.
pub fn fill_step(is_rejected: bool) -> (step: FillStep)
    ensures
        step == if is_rejected {
            FillStep::CancelRejected
        } else {
            FillStep::OfferToFunds
        },
{
    if is_rejected {
        FillStep::CancelRejected
    } else {
        FillStep::OfferToFunds
    }
}

/// The fills that no fund took (`taken`, one per fill), to be reported, in order.
pub fn unhandled_fills(trade_ids: &Vec<u64>, taken: &Vec<bool>) -> (unhandled: Vec<u64>)
    requires
        taken@.len() == trade_ids@.len(),
    ensures
        unhandled@ == trade_ids@.zip_with(taken@).filter(|p: (u64, bool)| !p.1).map_values(|p: (u64, bool)| p.0),
{
    let ghost pairs = trade_ids@.zip_with(taken@);
    let mut out: Vec<u64> = Vec::new();
    let mut i: usize = 0;
    while i < trade_ids.len()
        invariant
            taken@.len() == trade_ids@.len(),
            pairs == trade_ids@.zip_with(taken@),
            pairs.len() == trade_ids@.len(),
            i <= trade_ids@.len(),
            out@ == pairs.take(i as int).filter(|p: (u64, bool)| !p.1).map_values(|p: (u64, bool)| p.0),
        decreases trade_ids@.len() - i,
    {
        let ghost pair = pairs[i as int];
        proof {
            assert(pairs.take(i as int + 1) =~= pairs.take(i as int).push(pair));
            pairs.take(i as int).lemma_filter_push(pair, |p: (u64, bool)| !p.1);
        }
        if !taken[i] {
            out.push(trade_ids[i]);
            proof {
                let f = pairs.take(i as int).filter(|p: (u64, bool)| !p.1);
                assert(f.push(pair).map_values(|p: (u64, bool)| p.0) =~= f.map_values(|p: (u64, bool)| p.0).push(pair.0));
            }
        }
        i = i + 1;
    }
    assert(pairs.take(i as int) =~= pairs);
    out
}


/// Where a trading round stands.
#[derive(Clone, Copy, Debug, PartialEq, Eq, Structural)]
pub enum RoundPhase {
    /// Before the round.
    Idle,
    /// Waiting for the prices of the queried tokens.
    QueryingPrices,
    /// Waiting for the filled orders of the funds' tokens.
    FetchingFills,
    /// Waiting for the funds to handle the fills.
    HandlingFills,
    /// Waiting for the funds to look for chances.
    FindingChances,
}

/// How a round ended.
#[derive(Clone, Copy, Debug, PartialEq, Eq, Structural)]
pub enum RoundEnd {
    Completed,
    /// The back-test data ran out (reported as invalid data).
    BackTestFinished,
    /// A query or a fund failed.
    Failed,
}

/// The state of the trading rounds: the phase of the current one and the
/// index of the next back-test price.
#[derive(Clone, Copy, Debug, PartialEq, Eq, Structural)]
pub struct RoundState {
    pub phase: RoundPhase,
    pub back_test_counter: u64,
}

/// What the outside world reports to a round.
pub enum RoundEvent {
    /// A round begins: the funds' tokens (by id), whether this is a back test,
    /// and for each distinct token whether a back-test price is left.
    Begin { fund_tokens: Vec<u64>, back_test: bool, points_found: Vec<bool> },
    /// The prices came (`all_ok` unless a query failed); the market-data keys'
    /// tokens and which of them got a price.
    PricesQueried {
        all_ok: bool,
        key_tokens: Vec<u64>,
        priced: Vec<bool>,
        save_prices: bool,
        only_read_price: bool,
    },
    /// The filled orders came, with whether each was rejected.
    FillsFetched { all_ok: bool, rejected: Vec<bool> },
    /// The funds handled the fills: which fills a fund took; `all_ok` unless a
    /// fund failed or clearing the fills failed.
    FillsHandled { all_ok: bool, trade_ids: Vec<u64>, taken: Vec<bool> },
    /// The funds looked for chances.
    ChancesFound { all_ok: bool },
}

/// What a round asks the outside world to do next.
pub enum RoundAction {
    /// Query the price of each of `tokens` once; in a back test the query hands
    /// the exchange each token's recorded point at `back_test_index`.
    QueryPrices { tokens: Vec<u64>, back_test_index: Option<u64> },
    /// Carry out these steps on the market-data keys, in order, then fetch the
    /// filled orders (unless the round ends here).
    UpdateMarketData(Vec<MarketDataStep>),
    /// Handle each fetched fill by this step, in order.
    HandleFills(Vec<FillStep>),
    /// Report these unhandled fills, then let the funds look for chances.
    ReportUnhandledAndFindChances(Vec<u64>),
    /// Clean up the cancelled positions.
    CleanCanceled,
    /// Nothing more to do.
    Nothing,
}

/// One step of a trading round: from the state and what the outside world
/// reported, the next state, what to do, and how the round ended (none while it
/// goes on). A round begun in a back test whose data ran out ends at once;
/// otherwise the distinct tokens are queried. After the prices, the back-test
/// index moves on and the market data is updated (see [`market_data_steps`]);
/// a trader that only reads prices ends there. The fills are then handled (see
/// [`fill_step`]), the ones no fund took are reported (see
/// [`unhandled_fills`]), the funds look for chances, and the cancelled positions
/// are cleaned up. Any failure ends the round as failed; an event that does not
/// fit the phase ends it as failed too.
pub fn find_chances_step(state: RoundState, event: RoundEvent) -> (next: (RoundState, RoundAction, Option<RoundEnd>))
    requires
        event matches RoundEvent::PricesQueried { key_tokens, priced, .. } ==> priced@.len() == key_tokens@.len(),
        event matches RoundEvent::FillsHandled { trade_ids, taken, .. } ==> taken@.len() == trade_ids@.len(),
        state.phase == RoundPhase::QueryingPrices && event is PricesQueried ==> state.back_test_counter < u64::MAX,
    ensures
        match (state.phase, event) {
            (RoundPhase::Idle, RoundEvent::Begin { fund_tokens, back_test, points_found }) => if !back_test || forall|k: int|
                0 <= k < points_found@.len() ==> #[trigger] points_found@[k] {
                &&& next.0 == RoundState { phase: RoundPhase::QueryingPrices, ..state }
                &&& next.1 matches RoundAction::QueryPrices { tokens, back_test_index } && tokens@
                    == first_occurrences(fund_tokens@) && back_test_index == if back_test {
                    Some(state.back_test_counter)
                } else {
                    None
                }
                &&& next.2 is None
            } else {
                &&& next.0 == state
                &&& next.1 is Nothing
                &&& next.2 == Some(RoundEnd::BackTestFinished)
            },
            (RoundPhase::QueryingPrices, RoundEvent::PricesQueried { all_ok, key_tokens, priced, save_prices, only_read_price }) => if !all_ok {
                &&& next.0 == RoundState { phase: RoundPhase::Idle, ..state }
                &&& next.1 is Nothing
                &&& next.2 == Some(RoundEnd::Failed)
            } else {
                &&& next.0.back_test_counter == state.back_test_counter + 1
                &&& next.1 matches RoundAction::UpdateMarketData(steps) && steps@.len() == key_tokens@.len()
                    && forall|i: int| 0 <= i < steps@.len() ==> #[trigger] steps@[i] == market_data_step_at(
                    key_tokens@,
                    priced@,
                    i,
                    save_prices,
                    only_read_price,
                )
                &&& if only_read_price {
                    next.0.phase == RoundPhase::Idle && next.2 == Some(RoundEnd::Completed)
                } else {
                    next.0.phase == RoundPhase::FetchingFills && next.2 is None
                }
            },
            (RoundPhase::FetchingFills, RoundEvent::FillsFetched { all_ok, rejected }) => if !all_ok {
                &&& next.0 == RoundState { phase: RoundPhase::Idle, ..state }
                &&& next.1 is Nothing
                &&& next.2 == Some(RoundEnd::Failed)
            } else {
                &&& next.0 == RoundState { phase: RoundPhase::HandlingFills, ..state }
                &&& next.1 matches RoundAction::HandleFills(steps) && steps@.len() == rejected@.len()
                    && forall|i: int| 0 <= i < steps@.len() ==> #[trigger] steps@[i] == if rejected@[i] {
                    FillStep::CancelRejected
                } else {
                    FillStep::OfferToFunds
                }
                &&& next.2 is None
            },
            (RoundPhase::HandlingFills, RoundEvent::FillsHandled { all_ok, trade_ids, taken }) => if !all_ok {
                &&& next.0 == RoundState { phase: RoundPhase::Idle, ..state }
                &&& next.1 is Nothing
                &&& next.2 == Some(RoundEnd::Failed)
            } else {
                &&& next.0 == RoundState { phase: RoundPhase::FindingChances, ..state }
                &&& next.1 matches RoundAction::ReportUnhandledAndFindChances(u) && u@ == trade_ids@.zip_with(taken@).filter(
                    |p: (u64, bool)| !p.1,
                ).map_values(|p: (u64, bool)| p.0)
                &&& next.2 is None
            },
            (RoundPhase::FindingChances, RoundEvent::ChancesFound { all_ok }) => {
                &&& next.0 == RoundState { phase: RoundPhase::Idle, ..state }
                &&& if all_ok {
                    next.1 is CleanCanceled && next.2 == Some(RoundEnd::Completed)
                } else {
                    next.1 is Nothing && next.2 == Some(RoundEnd::Failed)
                }
            },
            _ => {
                &&& next.0 == RoundState { phase: RoundPhase::Idle, ..state }
                &&& next.1 is Nothing
                &&& next.2 == Some(RoundEnd::Failed)
            },
        },
{
    let idle = RoundState { phase: RoundPhase::Idle, back_test_counter: state.back_test_counter };
    match (state.phase, event) {
        (RoundPhase::Idle, RoundEvent::Begin { fund_tokens, back_test, points_found }) => {
            if back_test_ready(back_test, &points_found) {
                let tokens = distinct_tokens(&fund_tokens);
                (
                    RoundState { phase: RoundPhase::QueryingPrices, back_test_counter: state.back_test_counter },
                    RoundAction::QueryPrices {
                        tokens,
                        back_test_index: if back_test {
                            Some(state.back_test_counter)
                        } else {
                            None
                        },
                    },
                    None,
                )
            } else {
                (state, RoundAction::Nothing, Some(RoundEnd::BackTestFinished))
            }
        },
        (
            RoundPhase::QueryingPrices,
            RoundEvent::PricesQueried { all_ok, key_tokens, priced, save_prices, only_read_price },
        ) => {
            if !all_ok {
                return (idle, RoundAction::Nothing, Some(RoundEnd::Failed));
            }
            let counter = state.back_test_counter + 1;
            let steps = market_data_steps(&key_tokens, &priced, save_prices, only_read_price);
            if only_read_price {
                (
                    RoundState { phase: RoundPhase::Idle, back_test_counter: counter },
                    RoundAction::UpdateMarketData(steps),
                    Some(RoundEnd::Completed),
                )
            } else {
                (
                    RoundState { phase: RoundPhase::FetchingFills, back_test_counter: counter },
                    RoundAction::UpdateMarketData(steps),
                    None,
                )
            }
        },
        (RoundPhase::FetchingFills, RoundEvent::FillsFetched { all_ok, rejected }) => {
            if !all_ok {
                return (idle, RoundAction::Nothing, Some(RoundEnd::Failed));
            }
            let mut steps: Vec<FillStep> = Vec::new();
            let mut i: usize = 0;
            while i < rejected.len()
                invariant
                    i <= rejected@.len(),
                    steps@.len() == i,
                    forall|k: int| 0 <= k < i ==> #[trigger] steps@[k] == if rejected@[k] {
                        FillStep::CancelRejected
                    } else {
                        FillStep::OfferToFunds
                    },
                decreases rejected@.len() - i,
            {
                steps.push(fill_step(rejected[i]));
                i = i + 1;
            }
            (
                RoundState { phase: RoundPhase::HandlingFills, back_test_counter: state.back_test_counter },
                RoundAction::HandleFills(steps),
                None,
            )
        },
        (RoundPhase::HandlingFills, RoundEvent::FillsHandled { all_ok, trade_ids, taken }) => {
            if !all_ok {
                return (idle, RoundAction::Nothing, Some(RoundEnd::Failed));
            }
            let unhandled = unhandled_fills(&trade_ids, &taken);
            (
                RoundState { phase: RoundPhase::FindingChances, back_test_counter: state.back_test_counter },
                RoundAction::ReportUnhandledAndFindChances(unhandled),
                None,
            )
        },
        (RoundPhase::FindingChances, RoundEvent::ChancesFound { all_ok }) => {
            if all_ok {
                (idle, RoundAction::CleanCanceled, Some(RoundEnd::Completed))
            } else {
                (idle, RoundAction::Nothing, Some(RoundEnd::Failed))
            }
        },
        _ => (idle, RoundAction::Nothing, Some(RoundEnd::Failed)),
    }
}

} // verus!
