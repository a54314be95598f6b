use vstd::prelude::*;

pub use crate::arbitrage::find_index;

verus! {

/// The side of a trade.
#[derive(Clone, Copy, Debug, PartialEq, Eq, Structural)]
pub enum Operation {
    Buy,
    Sell,
}

} // verus!
