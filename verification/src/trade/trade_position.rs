use vstd::prelude::*;

verus! {

/// How a position takes its profit.
#[derive(Clone, Copy, Debug, PartialEq, Eq, Structural)]
pub enum TakeProfitStrategy {
    FixedThreshold,
    TrailingStop,
}

impl Default for TakeProfitStrategy {
    fn default() -> (s: Self)
        ensures
            s == TakeProfitStrategy::FixedThreshold,
    {
        TakeProfitStrategy::FixedThreshold
    }
}

/// How a position cuts its loss.
#[derive(Clone, Copy, Debug, PartialEq, Eq, Structural)]
pub enum CutLossStrategy {
    FixedThreshold,
    ATRStop,
}

impl Default for CutLossStrategy {
    fn default() -> (s: Self)
        ensures
            s == CutLossStrategy::FixedThreshold,
    {
        CutLossStrategy::FixedThreshold
    }
}

/// The life cycle of a position.
#[derive(Clone, Copy, Debug, PartialEq, Eq, Structural)]
pub enum State {
    Open,
    CutLoss,
    TakeProfit,
    Liquidated,
    Expired,
}

impl Default for State {
    fn default() -> (s: Self)
        ensures
            s == State::Open,
    {
        State::Open
    }
}

/// Why a position is to be closed.
#[derive(Clone, Copy, Debug, PartialEq, Eq, Structural)]
pub enum ReasonForSell {
    TakeProfit,
    CutLoss,
    Expired,
}

/// The price comparisons that decide whether a position closes, made by the
/// caller on the current sell price.
#[derive(Clone, Copy, Debug, PartialEq, Eq, Structural)]
pub struct PriceSignals {
    /// The take-profit rule fires (the sell price reached the take-profit price,
    /// or the trailing stop says so).
    pub take_profit: bool,
    /// The sell price is below the cut-loss price.
    pub below_cut_loss: bool,
    /// The sell price is above the average buy price.
    pub above_average_buy: bool,
    /// The take-profit price is below the cut-loss price.
    pub take_profit_below_cut_loss: bool,
}

/// Why the position opened at `open_time` closes at `current_time`, if it does:
/// take profit when the take-profit rule fires; below the cut-loss price, take
/// profit if the price is still above the average buy price and cut loss if not;
/// otherwise nothing while the take-profit price is below the cut-loss price;
/// otherwise, once held for more than twice `max_holding_interval`, expired, and
/// once held for more than `max_holding_interval`, take profit if the price is
/// above the average buy price.
pub fn should_close(
    signals: PriceSignals,
    current_time: i64,
    open_time: i64,
    max_holding_interval: i64,
) -> (reason: Option<ReasonForSell>)
    requires
        i64::MIN <= current_time - open_time <= i64::MAX,
        i64::MIN <= max_holding_interval * 2 <= i64::MAX,
    ensures
        reason == (if signals.take_profit {
            Some(ReasonForSell::TakeProfit)
        } else if signals.below_cut_loss {
            if signals.above_average_buy {
                Some(ReasonForSell::TakeProfit)
            } else {
                Some(ReasonForSell::CutLoss)
            }
        } else if signals.take_profit_below_cut_loss {
            None
        } else if current_time - open_time > max_holding_interval * 2 {
            Some(ReasonForSell::Expired)
        } else if current_time - open_time > max_holding_interval && signals.above_average_buy {
            Some(ReasonForSell::TakeProfit)
        } else {
            None
        }),
{
    if signals.take_profit {
        return Some(ReasonForSell::TakeProfit);
    }
    let holding_interval = current_time - open_time;
    if signals.below_cut_loss {
        if signals.above_average_buy {
            return Some(ReasonForSell::TakeProfit);
        } else {
            return Some(ReasonForSell::CutLoss);
        }
    }
    if signals.take_profit_below_cut_loss {
        return None;
    }
    if holding_interval > max_holding_interval * 2 {
        return Some(ReasonForSell::Expired);
    } else if holding_interval > max_holding_interval {
        if signals.above_average_buy {
            return Some(ReasonForSell::TakeProfit);
        }
    }
    None
}

} // verus!
