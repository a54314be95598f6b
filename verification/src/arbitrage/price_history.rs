use vstd::prelude::*;

verus! {

/// The families of price predictions that a vote can be taken over.
#[derive(Clone, Copy, Debug, PartialEq, Eq, Structural)]
pub enum TradingStrategy {
    TrendFollowing,
    MeanReversion,
    Contrarian,
}

/// Appends `item` to a history of at most `max_size` entries: when the history
/// holds exactly `max_size` entries, the oldest one is dropped first. (An empty
/// history with `max_size` 0 has no oldest entry to drop.)
pub fn push_with_limit<T>(history: &mut Vec<T>, item: T, max_size: usize)
    requires
        !(old(history)@.len() == 0 && max_size == 0),
    ensures
        final(history)@ == if old(history)@.len() == max_size {
            old(history)@.drop_first().push(item)
        } else {
            old(history)@.push(item)
        },
{
    if history.len() == max_size {
        history.remove(0);
    }
    history.push(item);
}

/// A history that never held more than `max_size` entries still does not after
/// a push.
pub proof fn lemma_history_stays_bounded(before: Seq<int>, item: int, max_size: int)
    requires
        max_size > 0,
        before.len() <= max_size,
    ensures
        (if before.len() == max_size {
            before.drop_first().push(item)
        } else {
            before.push(item)
        }).len() <= max_size,
{
}

} // verus!
