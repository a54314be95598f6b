use vstd::prelude::*;

verus! {

/// The direction of a tracked value.
#[derive(Clone, Copy, Debug, PartialEq, Eq, Structural)]
pub enum Trend {
    Rise,
    Fall,
    Stay,
}

impl Default for Trend {
    fn default() -> (trend: Self)
        ensures
            trend == Trend::Stay,
    {
        Trend::Stay
    }
}

/// How the slope of the recent values compares with the threshold.
#[derive(Clone, Copy, Debug, PartialEq, Eq, Structural)]
pub enum SlopeReading {
    /// Too few values for a slope, or no slope (all values at one point).
    Unavailable,
    /// The slope reaches the threshold in absolute value; `rising` tells its sign.
    Strong { rising: bool },
    /// The slope stays below the threshold in absolute value.
    Weak,
}

/// The number of weak readings in a row after which the trend is `Stay`.
pub const WEAK_READINGS_BEFORE_STAY: usize = 10;

/// What a trend tracker remembers between readings.
#[derive(Clone, Copy, Debug, PartialEq, Eq, Structural)]
pub struct TrendState {
    pub last_trend: Trend,
    pub consecutive_below_threshold: usize,
}

impl TrendState {
    pub fn new() -> (state: Self)
        ensures
            state.last_trend == Trend::Stay,
            state.consecutive_below_threshold == 0,
    {
        TrendState { last_trend: Trend::Stay, consecutive_below_threshold: 0 }
    }

    /// The trend for a new reading. A strong reading sets the trend to its
    /// direction and clears the count of weak readings; a weak reading counts
    /// one more and keeps the last trend until 10 weak readings in a row, after
    /// which it answers `Stay`; without a slope the answer is `Stay` and nothing
    /// changes.
    pub fn is_up(&mut self, reading: SlopeReading) -> (trend: Trend)
        requires
            reading == SlopeReading::Weak ==> old(self).consecutive_below_threshold < usize::MAX,
        ensures
            match reading {
                SlopeReading::Unavailable => trend == Trend::Stay && *final(self) == *old(self),
                SlopeReading::Strong { rising } => {
                    &&& trend == (if rising {
                        Trend::Rise
                    } else {
                        Trend::Fall
                    })
                    &&& final(self).last_trend == trend
                    &&& final(self).consecutive_below_threshold == 0
                },
                SlopeReading::Weak => {
                    &&& final(self).last_trend == old(self).last_trend
                    &&& final(self).consecutive_below_threshold
                        == old(self).consecutive_below_threshold + 1
                    &&& trend == (if final(self).consecutive_below_threshold
                        >= WEAK_READINGS_BEFORE_STAY {
                        Trend::Stay
                    } else {
                        old(self).last_trend
                    })
                },
            },
    {
        match reading {
            SlopeReading::Unavailable => Trend::Stay,
            SlopeReading::Strong { rising } => {
                self.consecutive_below_threshold = 0;
                if rising {
                    self.last_trend = Trend::Rise;
                    Trend::Rise
                } else {
                    self.last_trend = Trend::Fall;
                    Trend::Fall
                }
            },
            SlopeReading::Weak => {
                self.consecutive_below_threshold = self.consecutive_below_threshold + 1;
                if self.consecutive_below_threshold >= WEAK_READINGS_BEFORE_STAY {
                    Trend::Stay
                } else {
                    self.last_trend
                }
            },
        }
    }
}

/// The state after a run of readings, one [`TrendState::is_up`] step each.
pub open spec fn state_after(state: TrendState, readings: Seq<SlopeReading>) -> TrendState
    decreases readings.len(),
{
    if readings.len() == 0 {
        state
    } else {
        let prev = state_after(state, readings.drop_last());
        match readings.last() {
            SlopeReading::Unavailable => prev,
            SlopeReading::Strong { rising } => TrendState {
                last_trend: if rising {
                    Trend::Rise
                } else {
                    Trend::Fall
                },
                consecutive_below_threshold: 0,
            },
            SlopeReading::Weak => TrendState {
                last_trend: prev.last_trend,
                consecutive_below_threshold: (prev.consecutive_below_threshold + 1) as usize,
            },
        }
    }
}

/// Weak and missing readings never change the remembered trend, and each weak
/// reading adds one to the count: after `k` weak readings (missing ones mixed
/// in freely) the count has grown by `k`.
pub proof fn lemma_weak_readings_keep_trend(state: TrendState, readings: Seq<SlopeReading>)
    requires
        forall|i: int| 0 <= i < readings.len() ==> readings[i] != (SlopeReading::Strong { rising: true })
            && readings[i] != (SlopeReading::Strong { rising: false }),
        state.consecutive_below_threshold + readings.len() <= usize::MAX,
    ensures
        state_after(state, readings).last_trend == state.last_trend,
        state_after(state, readings).consecutive_below_threshold == state.consecutive_below_threshold
            + readings.filter(|r: SlopeReading| r == SlopeReading::Weak).len(),
    decreases readings.len(),
{
    if readings.len() > 0 {
        let init = readings.drop_last();
        lemma_weak_readings_keep_trend(state, init);
        assert(readings =~= init.push(readings.last()));
        init.lemma_filter_push(readings.last(), |r: SlopeReading| r == SlopeReading::Weak);
        broadcast use vstd::seq_lib::group_filter_ensures;

        match readings.last() {
            SlopeReading::Strong { rising } => {
                assert(readings[readings.len() - 1] == readings.last());
            },
            _ => {},
        }
    }
}

/// Appends `item` to a window of the last values: when the window already holds
/// `period` entries or more, the oldest one is dropped first. (An empty window
/// with `period` 0 has no oldest entry to drop.)
pub fn push_keeping_period<T>(window: &mut Vec<T>, item: T, period: usize)
    requires
        !(old(window)@.len() == 0 && period == 0),
    ensures
        final(window)@ == if old(window)@.len() >= period {
            old(window)@.drop_first().push(item)
        } else {
            old(window)@.push(item)
        },
{
    if window.len() >= period {
        window.remove(0);
    }
    window.push(item);
}

} // verus!
