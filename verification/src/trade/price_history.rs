use vstd::prelude::*;

verus! {

/// The strategies a price prediction can follow.
#[derive(Clone, Copy, Debug, PartialEq, Eq, Structural)]
pub enum TradingStrategy {
    TrendFollowing,
}


/// A price point: the price (of any type), its time in seconds, and the time
/// since the point before it, when there is one and the difference fits.
#[derive(Clone, Copy, Debug)]
pub struct TimedPoint<P> {
    pub price: P,
    pub timestamp: i64,
    pub relative_timestamp: Option<i64>,
}

/// The difference of two times, none where it overflows (`i64::checked_sub`).
pub open spec fn time_difference(later: i64, earlier: i64) -> Option<i64> {
    if i64::MIN <= later - earlier <= i64::MAX {
        Some((later - earlier) as i64)
    } else {
        None
    }
}

/// Adds a price to a history of at most `max_size` points and returns the new
/// point: the oldest point goes first when the history is full; the new point
/// has the given time (the current time `now` when none is given) and, when a
/// point is left before it, the time since that point. The history never
/// grows beyond `max_size`.
pub fn add_price_point<P: Copy>(
    points: &mut Vec<TimedPoint<P>>,
    price: P,
    timestamp: Option<i64>,
    now: i64,
    max_size: usize,
) -> (point: TimedPoint<P>)
    requires
        !(old(points)@.len() == 0 && max_size == 0),
    ensures
        ({
            let kept = if old(points)@.len() == max_size {
                old(points)@.drop_first()
            } else {
                old(points)@
            };
            &&& point.price == price
            &&& point.timestamp == match timestamp {
                Some(t) => t,
                None => now,
            }
            &&& point.relative_timestamp == if kept.len() > 0 {
                time_difference(point.timestamp, kept.last().timestamp)
            } else {
                None
            }
            &&& final(points)@ == kept.push(point)
        }),
        old(points)@.len() <= max_size ==> final(points)@.len() == if old(points)@.len() < max_size {
            old(points)@.len() + 1int
        } else {
            max_size as int
        },
{
    if points.len() == max_size {
        points.remove(0);
    }
    let time = match timestamp {
        Some(t) => t,
        None => now,
    };
    let relative = if points.len() > 0 {
        time.checked_sub(points[points.len() - 1].timestamp)
    } else {
        None
    };
    let point = TimedPoint { price, timestamp: time, relative_timestamp: relative };
    points.push(point);
    point
}

} // verus!
