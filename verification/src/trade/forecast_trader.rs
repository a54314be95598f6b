use vstd::prelude::*;

verus! {

/// The short, medium and long trading horizons, in hours.
#[derive(Clone, Copy, Debug)]
pub struct TradingPeriod {
    short_term_hour: usize,
    medium_term_hour: usize,
    long_term_hour: usize,
}

/// The number of seconds in an hour.
pub const SECONDS_IN_HOUR: usize = 3600;

/// `hours` hours counted in ticks of `interval` seconds (rounded down).
pub open spec fn hours_in_ticks(hours: usize, interval: u64) -> int {
    (hours * SECONDS_IN_HOUR) as int / ((interval as usize) as int)
}

impl TradingPeriod {
    pub closed spec fn spec_hours(&self) -> (usize, usize, usize) {
        (self.short_term_hour, self.medium_term_hour, self.long_term_hour)
    }

    pub fn new(short_term_hour: usize, medium_term_hour: usize, long_term_hour: usize) -> (period: Self)
        ensures
            period.spec_hours() == (short_term_hour, medium_term_hour, long_term_hour),
    {
        Self { short_term_hour, medium_term_hour, long_term_hour }
    }

    /// The three horizons in ticks of `interval` seconds: `hours * 3600 / interval`.
    pub fn trade_periods(&self, interval: u64) -> (periods: (usize, usize, usize))
        requires
            (interval as usize) > 0,
            self.spec_hours().0 * SECONDS_IN_HOUR <= usize::MAX,
            self.spec_hours().1 * SECONDS_IN_HOUR <= usize::MAX,
            self.spec_hours().2 * SECONDS_IN_HOUR <= usize::MAX,
        ensures
            periods.0 == hours_in_ticks(self.spec_hours().0, interval),
            periods.1 == hours_in_ticks(self.spec_hours().1, interval),
            periods.2 == hours_in_ticks(self.spec_hours().2, interval),
    {
        let ticks = interval as usize;
        (
            self.short_term_hour * SECONDS_IN_HOUR / ticks,
            self.medium_term_hour * SECONDS_IN_HOUR / ticks,
            self.long_term_hour * SECONDS_IN_HOUR / ticks,
        )
    }
}


/// How long a forecasting trader holds its positions.
#[derive(Clone, Copy, Debug, PartialEq, Eq, Structural)]
pub enum TradingStyle {
    Day,
    Swing,
}

/// The style of the trader at `index`: day trading first, then swing trading;
/// there is no third.
pub fn trading_style(index: usize) -> (style: TradingStyle)
    requires
        index < 2,
    ensures
        style == if index == 0 {
            TradingStyle::Day
        } else {
            TradingStyle::Swing
        },
{
    if index == 0 {
        TradingStyle::Day
    } else {
        TradingStyle::Swing
    }
}

/// Whether a fund's token is among the trader's tokens (by symbol); a fund of
/// any other token is not created.
pub fn is_token_listed(token_name: &String, symbols: &Vec<String>) -> (listed: bool)
    ensures
        listed == exists|i: int| 0 <= i < symbols@.len() && #[trigger] symbols@[i]@ == token_name@,
{
    let mut i: usize = 0;
    while i < symbols.len()
        invariant
            i <= symbols@.len(),
            forall|k: int| 0 <= k < i ==> #[trigger] symbols@[k]@ != token_name@,
        decreases symbols@.len() - i,
    {
        if symbols[i] == *token_name {
            assert(symbols@[i as int]@ == token_name@);
            return true;
        }
        i = i + 1;
    }
    false
}

} // verus!
