use vstd::arithmetic::div_mod::lemma_fundamental_div_mod_converse;
use vstd::prelude::*;

use crate::decimal::{
    checked_div, checked_mul, dec, decimal_product, decimal_quotient, is_valid_decimal, whole,
    DecimalValue,
};

verus! {

/// The number of tokens traded.
pub const TOKEN_LIST_SIZE: u32 = 1;

/// The direction a strategy trades in.
#[derive(Clone, Copy, Debug, PartialEq, Eq, Structural)]
pub enum TrendType {
    Up,
    Down,
    Unknown,
}

/// The trading strategies, each for a direction.
#[derive(Clone, Copy, Debug, PartialEq, Eq, Structural)]
pub enum TradingStrategy {
    RandomWalk(TrendType),
    MeanReversion(TrendType),
    TrendFollow(TrendType),
}

/// The horizon over which the average true range is measured.
#[derive(Clone, Copy, Debug, PartialEq, Eq, Structural)]
pub enum SampleTerm {
    TradingTerm,
    ShortTerm,
    LongTerm,
}

/// The settings of one fund: token, strategy, amount, position size ratio,
/// risk/reward, take-profit ratio, spread in ATRs, ATR term and the number of
/// hours an order stays open.
pub type FundSetting = (
    String,
    TradingStrategy,
    DecimalValue,
    DecimalValue,
    DecimalValue,
    Option<DecimalValue>,
    Option<DecimalValue>,
    SampleTerm,
    i64,
);

/// The direction of a strategy.
pub open spec fn trend_of(strategy: TradingStrategy) -> TrendType {
    match strategy {
        TradingStrategy::RandomWalk(t) => t,
        TradingStrategy::MeanReversion(t) => t,
        TradingStrategy::TrendFollow(t) => t,
    }
}

/// The ATR terms tried, in order.
pub open spec fn atr_term_choices() -> Seq<SampleTerm> {
    seq![SampleTerm::TradingTerm, SampleTerm::ShortTerm, SampleTerm::LongTerm]
}

/// The take-profit ratios tried for a strategy, in order: 0.5% to 3% for random
/// walks, 0.5% to 2% otherwise.
pub open spec fn take_profit_choices(strategy: TradingStrategy) -> Seq<Option<DecimalValue>> {
    let common = seq![
        Some(dec(5, 3)),
        Some(dec(75, 4)),
        Some(dec(10, 3)),
        Some(dec(125, 4)),
        Some(dec(15, 3)),
        Some(dec(20, 3)),
    ];
    match strategy {
        TradingStrategy::RandomWalk(_) => common + seq![Some(dec(25, 3)), Some(dec(30, 3))],
        _ => common,
    }
}

/// The spreads (in ATRs) tried for a strategy, in order: none and 0.1 to 1.0 for
/// random walks, 0.2, 0.4 and 0.8 for mean reversion, none for trend following.
pub open spec fn atr_spread_choices(strategy: TradingStrategy) -> Seq<Option<DecimalValue>> {
    match strategy {
        TradingStrategy::RandomWalk(_) => seq![
            None,
            Some(dec(100, 3)),
            Some(dec(200, 3)),
            Some(dec(300, 3)),
            Some(dec(400, 3)),
            Some(dec(500, 3)),
            Some(dec(600, 3)),
            Some(dec(700, 3)),
            Some(dec(800, 3)),
            Some(dec(900, 3)),
            Some(dec(1000, 3)),
        ],
        TradingStrategy::MeanReversion(_) => seq![
            Some(dec(200, 3)),
            Some(dec(400, 3)),
            Some(dec(800, 3)),
        ],
        TradingStrategy::TrendFollow(_) => seq![None],
    }
}

/// The open-order lifetimes tried, in hours, in order.
pub open spec fn open_hours_choices() -> Seq<i64> {
    seq![3i64, 6i64, 12i64, 24i64]
}

/// The number of fund settings for a strategy: one per combination of ATR term,
/// take-profit ratio, spread and open-order lifetime.
pub open spec fn setting_count(strategy: TradingStrategy) -> int {
    (3 * take_profit_choices(strategy).len() * atr_spread_choices(strategy).len() * 4) as int
}

/// The combination at position `k` of the list of settings: the open-order
/// lifetime varies fastest, then the spread, then the take-profit ratio, and the
/// ATR term slowest.
pub open spec fn setting_indices(strategy: TradingStrategy, k: int) -> (int, int, int, int) {
    let n_tp = take_profit_choices(strategy).len() as int;
    let n_sp = atr_spread_choices(strategy).len() as int;
    let i_hours = k % 4;
    let rest = k / 4;
    let i_spread = rest % n_sp;
    let rest2 = rest / n_sp;
    let i_tp = rest2 % n_tp;
    let i_term = rest2 / n_tp;
    (i_term, i_tp, i_spread, i_hours)
}

/// Setting `k` matches its combination, with the given amount, the token
/// `BTC-USD`, a position size ratio of 0.8 and a risk/reward of 1.
pub open spec fn is_setting_at(
    setting: FundSetting,
    strategy: TradingStrategy,
    amount: DecimalValue,
    k: int,
) -> bool {
    let (i_term, i_tp, i_spread, i_hours) = setting_indices(strategy, k);
    &&& setting.0@ == "BTC-USD"@
    &&& setting.1 == strategy
    &&& setting.2 == amount
    &&& setting.3 == dec(8, 1)
    &&& setting.4 == dec(1, 0)
    &&& setting.5 == take_profit_choices(strategy)[i_tp]
    &&& setting.6 == atr_spread_choices(strategy)[i_spread]
    &&& setting.7 == atr_term_choices()[i_term]
    &&& setting.8 == open_hours_choices()[i_hours]
}

fn take_profit_list(strategy: TradingStrategy) -> (list: Vec<Option<DecimalValue>>)
    ensures
        list@ == take_profit_choices(strategy),
{
    let mut list = vec![
        Some(DecimalValue { mantissa: 5, scale: 3 }),
        Some(DecimalValue { mantissa: 75, scale: 4 }),
        Some(DecimalValue { mantissa: 10, scale: 3 }),
        Some(DecimalValue { mantissa: 125, scale: 4 }),
        Some(DecimalValue { mantissa: 15, scale: 3 }),
        Some(DecimalValue { mantissa: 20, scale: 3 }),
    ];
    match strategy {
        TradingStrategy::RandomWalk(_) => {
            list.push(Some(DecimalValue { mantissa: 25, scale: 3 }));
            list.push(Some(DecimalValue { mantissa: 30, scale: 3 }));
        },
        _ => {},
    }
    assert(list@ =~= take_profit_choices(strategy));
    list
}

fn atr_spread_list(strategy: TradingStrategy) -> (list: Vec<Option<DecimalValue>>)
    ensures
        list@ == atr_spread_choices(strategy),
{
    let list = match strategy {
        TradingStrategy::RandomWalk(_) => vec![
            None,
            Some(DecimalValue { mantissa: 100, scale: 3 }),
            Some(DecimalValue { mantissa: 200, scale: 3 }),
            Some(DecimalValue { mantissa: 300, scale: 3 }),
            Some(DecimalValue { mantissa: 400, scale: 3 }),
            Some(DecimalValue { mantissa: 500, scale: 3 }),
            Some(DecimalValue { mantissa: 600, scale: 3 }),
            Some(DecimalValue { mantissa: 700, scale: 3 }),
            Some(DecimalValue { mantissa: 800, scale: 3 }),
            Some(DecimalValue { mantissa: 900, scale: 3 }),
            Some(DecimalValue { mantissa: 1000, scale: 3 }),
        ],
        TradingStrategy::MeanReversion(_) => vec![
            Some(DecimalValue { mantissa: 200, scale: 3 }),
            Some(DecimalValue { mantissa: 400, scale: 3 }),
            Some(DecimalValue { mantissa: 800, scale: 3 }),
        ],
        TradingStrategy::TrendFollow(_) => vec![None],
    };
    assert(list@ =~= atr_spread_choices(strategy));
    list
}

proof fn lemma_setting_indices_in_range(strategy: TradingStrategy, k: int)
    requires
        0 <= k < setting_count(strategy),
    ensures
        ({
            let (i_term, i_tp, i_spread, i_hours) = setting_indices(strategy, k);
            &&& 0 <= i_term < 3
            &&& 0 <= i_tp < take_profit_choices(strategy).len()
            &&& 0 <= i_spread < atr_spread_choices(strategy).len()
            &&& 0 <= i_hours < 4
        }),
{
    let n_tp = take_profit_choices(strategy).len() as int;
    let n_sp = atr_spread_choices(strategy).len() as int;
    assert(n_tp > 0 && n_sp > 0);
    let rest = k / 4;
    let rest2 = rest / n_sp;
    assert(0 <= rest < 3 * n_tp * n_sp) by (nonlinear_arith)
        requires
            0 <= k < 3 * n_tp * n_sp * 4,
            rest == k / 4,
    ;
    assert(0 <= rest2 < 3 * n_tp) by (nonlinear_arith)
        requires
            0 <= rest < 3 * n_tp * n_sp,
            n_sp > 0,
            rest2 == rest / n_sp,
    ;
    assert(0 <= rest2 / n_tp < 3) by (nonlinear_arith)
        requires
            0 <= rest2 < 3 * n_tp,
            n_tp > 0,
    ;
    assert(0 <= rest % n_sp < n_sp) by (nonlinear_arith)
        requires
            n_sp > 0,
            rest >= 0,
    ;
    assert(0 <= rest2 % n_tp < n_tp) by (nonlinear_arith)
        requires
            n_tp > 0,
            rest2 >= 0,
    ;
}

/// Every combination of ATR term, take-profit ratio, spread and open-order
/// lifetime has exactly one position in the list of settings:
/// `((term * #ratios + ratio) * #spreads + spread) * 4 + lifetime`.
pub proof fn lemma_each_combination_once(
    strategy: TradingStrategy,
    i_term: int,
    i_tp: int,
    i_spread: int,
    i_hours: int,
)
    requires
        0 <= i_term < 3,
        0 <= i_tp < take_profit_choices(strategy).len(),
        0 <= i_spread < atr_spread_choices(strategy).len(),
        0 <= i_hours < 4,
    ensures
        ({
            let n_tp = take_profit_choices(strategy).len() as int;
            let n_sp = atr_spread_choices(strategy).len() as int;
            let k = ((i_term * n_tp + i_tp) * n_sp + i_spread) * 4 + i_hours;
            &&& 0 <= k < setting_count(strategy)
            &&& setting_indices(strategy, k) == (i_term, i_tp, i_spread, i_hours)
            &&& forall|j: int|
                0 <= j < setting_count(strategy) && setting_indices(strategy, j) == (
                    i_term,
                    i_tp,
                    i_spread,
                    i_hours,
                ) ==> j == k
        }),
{
    let n_tp = take_profit_choices(strategy).len() as int;
    let n_sp = atr_spread_choices(strategy).len() as int;
    let a = i_term * n_tp + i_tp;
    let b = a * n_sp + i_spread;
    let k = b * 4 + i_hours;
    assert(0 <= a < 3 * n_tp) by (nonlinear_arith)
        requires
            0 <= i_term < 3,
            0 <= i_tp < n_tp,
            a == i_term * n_tp + i_tp,
    ;
    assert(0 <= b < 3 * n_tp * n_sp) by (nonlinear_arith)
        requires
            0 <= a < 3 * n_tp,
            0 <= i_spread < n_sp,
            b == a * n_sp + i_spread,
    ;
    assert(0 <= k < 3 * n_tp * n_sp * 4) by (nonlinear_arith)
        requires
            0 <= b < 3 * n_tp * n_sp,
            0 <= i_hours < 4,
            k == b * 4 + i_hours,
    ;
    lemma_fundamental_div_mod_converse(k, 4, b, i_hours);
    lemma_fundamental_div_mod_converse(b, n_sp, a, i_spread);
    lemma_fundamental_div_mod_converse(a, n_tp, i_term, i_tp);
    assert forall|j: int|
        0 <= j < setting_count(strategy) && setting_indices(strategy, j) == (
            i_term,
            i_tp,
            i_spread,
            i_hours,
        ) implies j == k by {
        let r1 = j / 4;
        let r2 = r1 / n_sp;
        assert(j == r1 * 4 + j % 4) by (nonlinear_arith)
            requires
                r1 == j / 4,
        ;
        assert(r1 == r2 * n_sp + r1 % n_sp) by (nonlinear_arith)
            requires
                r2 == r1 / n_sp,
                n_sp > 0,
        ;
        assert(r2 == (r2 / n_tp) * n_tp + r2 % n_tp) by (nonlinear_arith)
            requires
                n_tp > 0,
        ;
    }
}

/// Every fund setting that the Hyperliquid DEX runs for `strategy`, each with
/// the same `amount`: one per combination of ATR term, take-profit ratio, spread
/// and open-order lifetime (see [`setting_indices`] for the order).
pub fn fund_settings(dex_name: &str, strategy: TradingStrategy, amount: DecimalValue) -> (settings: Vec<
    FundSetting,
>)
    requires
        dex_name@ == "hyperliquid"@,
        trend_of(strategy) != TrendType::Unknown,
    ensures
        settings@.len() == setting_count(strategy),
        forall|k: int|
            0 <= k < settings@.len() ==> is_setting_at(#[trigger] settings@[k], strategy, amount, k),
{
    let terms = vec![SampleTerm::TradingTerm, SampleTerm::ShortTerm, SampleTerm::LongTerm];
    let hours = vec![3i64, 6i64, 12i64, 24i64];
    let take_profits = take_profit_list(strategy);
    let spreads = atr_spread_list(strategy);
    let n_tp = take_profits.len();
    let n_sp = spreads.len();
    assert(terms@ =~= atr_term_choices());
    assert(hours@ =~= open_hours_choices());
    assert(n_tp <= 8 && n_sp <= 11);
    assert(3 * n_tp * n_sp * 4 <= 1056) by (nonlinear_arith)
        requires
            n_tp <= 8,
            n_sp <= 11,
    ;
    let total: usize = 3 * n_tp * n_sp * 4;
    let mut settings: Vec<FundSetting> = Vec::new();
    let mut k: usize = 0;
    while k < total
        invariant
            total == setting_count(strategy),
            terms@ == atr_term_choices(),
            hours@ == open_hours_choices(),
            take_profits@ == take_profit_choices(strategy),
            spreads@ == atr_spread_choices(strategy),
            n_tp == take_profits@.len(),
            n_sp == spreads@.len(),
            k <= total,
            settings@.len() == k,
            forall|j: int| 0 <= j < k ==> is_setting_at(#[trigger] settings@[j], strategy, amount, j),
        decreases total - k,
    {
        proof {
            lemma_setting_indices_in_range(strategy, k as int);
        }
        let i_hours = k % 4;
        let rest = k / 4;
        let i_spread = rest % n_sp;
        let rest2 = rest / n_sp;
        let i_tp = rest2 % n_tp;
        let i_term = rest2 / n_tp;
        let token = String::from_str("BTC-USD");
        let setting: FundSetting = (
            token,
            strategy,
            amount,
            DecimalValue { mantissa: 8, scale: 1 },
            DecimalValue { mantissa: 1, scale: 0 },
            take_profits[i_tp],
            spreads[i_spread],
            terms[i_term],
            hours[i_hours],
        );
        settings.push(setting);
        k = k + 1;
    }
    settings
}

/// The amount each fund gets: the initial amount times the leverage, shared out
/// among `count` funds, as rust_decimal computes it (`None` where it overflows or
/// `count` is 0).
pub fn amount_per_strategy(initial_amount: DecimalValue, leverage: u32, count: u64) -> (amount:
    Option<DecimalValue>)
    requires
        is_valid_decimal(initial_amount),
    ensures
        amount == match decimal_product(initial_amount, whole(leverage as int)) {
            Some(total) => decimal_quotient(total, whole(count as int)),
            None => None,
        },
{
    let total = checked_mul(initial_amount, DecimalValue { mantissa: leverage as i128, scale: 0 });
    match total {
        Some(t) => checked_div(t, DecimalValue { mantissa: count as i128, scale: 0 }),
        None => None,
    }
}

/// The fund settings for `strategy`, with the initial amount times the leverage
/// shared out evenly among them; `None` when rust_decimal cannot compute that
/// share.
pub fn get(dex_name: &str, strategy: TradingStrategy, leverage: u32, initial_amount: DecimalValue) -> (settings:
    Option<Vec<FundSetting>>)
    requires
        dex_name@ == "hyperliquid"@,
        trend_of(strategy) != TrendType::Unknown,
        is_valid_decimal(initial_amount),
    ensures
        match amount_for(strategy, leverage, initial_amount) {
            Some(amount) => settings matches Some(s) && s@.len() == setting_count(strategy) && forall|k: int|
                0 <= k < s@.len() ==> is_setting_at(#[trigger] s@[k], strategy, amount, k),
            None => settings is None,
        },
{
    let zero = DecimalValue { mantissa: 0, scale: 0 };
    let settings = fund_settings(dex_name, strategy, zero);
    let count = settings.len() as u64;
    match amount_per_strategy(initial_amount, leverage, count) {
        Some(amount) => {
            let mut shared: Vec<FundSetting> = Vec::new();
            let mut k: usize = 0;
            while k < settings.len()
                invariant
                    k <= settings@.len(),
                    settings@.len() == setting_count(strategy),
                    forall|j: int|
                        0 <= j < settings@.len() ==> is_setting_at(#[trigger] settings@[j], strategy, zero, j),
                    shared@.len() == k,
                    forall|j: int| 0 <= j < k ==> is_setting_at(#[trigger] shared@[j], strategy, amount, j),
                decreases settings@.len() - k,
            {
                let s = &settings[k];
                let token = s.0.clone();
                shared.push((token, s.1, amount, s.3, s.4, s.5, s.6, s.7, s.8));
                k = k + 1;
            }
            Some(shared)
        },
        None => None,
    }
}

/// The share of each fund for `strategy`: the initial amount times the leverage
/// divided by the number of settings, as rust_decimal computes it.
pub open spec fn amount_for(strategy: TradingStrategy, leverage: u32, initial_amount: DecimalValue) -> Option<
    DecimalValue,
> {
    match decimal_product(initial_amount, whole(leverage as int)) {
        Some(total) => decimal_quotient(total, whole(setting_count(strategy))),
        None => None,
    }
}

} // verus!
