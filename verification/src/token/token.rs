use vstd::prelude::*;

verus! {

/// The chain a token lives on, with the chain's id.
#[derive(Clone, Copy, Debug, PartialEq, Eq, Structural)]
pub enum BlockChain {
    BscChain { chain_id: u64 },
    PolygonChain { chain_id: u64 },
}

impl BlockChain {
    /// The id of the chain, whichever chain it is.
    pub fn block_chain_id(&self) -> (id: u64)
        ensures
            id == match *self {
                BlockChain::BscChain { chain_id } => chain_id,
                BlockChain::PolygonChain { chain_id } => chain_id,
            },
    {
        match self {
            BlockChain::BscChain { chain_id } => *chain_id,
            BlockChain::PolygonChain { chain_id } => *chain_id,
        }
    }
}

} // verus!
