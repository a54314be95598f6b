use vstd::prelude::*;

use crate::trade::derivative_trader::SampleInterval;
use crate::trade::fund_config::{TradingStrategy, TrendType};

verus! {

/// The traders to run for `strategy` on the DEX `dex_name`: each as its trading
/// interval and its short and long sampling terms (in minutes) and the DEX. The
/// random walk of unknown direction trades daily, sampling over 12 and 26
/// hours; no other strategy of the library has a trader, and without a
/// strategy none runs.
pub fn get(strategy: Option<TradingStrategy>, dex_name: &str) -> (traders: Vec<(usize, SampleInterval, String)>)
    ensures
        strategy == Some(TradingStrategy::RandomWalk(TrendType::Unknown)) ==> {
            &&& traders@.len() == 1
            &&& traders@[0].0 == 24 * 60
            &&& traders@[0].1.spec_short_term() == 12 * 60
            &&& traders@[0].1.spec_long_term() == 26 * 60
            &&& traders@[0].2@ == dex_name@
        },
        strategy != Some(TradingStrategy::RandomWalk(TrendType::Unknown)) ==> traders@.len() == 0,
{
    let mut traders: Vec<(usize, SampleInterval, String)> = Vec::new();
    let wanted = match strategy {
        Some(TradingStrategy::RandomWalk(TrendType::Unknown)) => true,
        _ => false,
    };
    if wanted {
        traders.push((24 * 60, SampleInterval::new(12 * 60, 26 * 60), dex_name.to_owned()));
    }
    traders
}

} // verus!
