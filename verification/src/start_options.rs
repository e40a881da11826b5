//! The operator's choice of where indexing begins.

use vstd::prelude::*;

verus! {

/// A block height on the chain.
pub type BlockHeight = u64;

/// Where the operator asked indexing to begin. Exactly one case is chosen per
/// run, and the value never changes afterwards.
#[derive(Clone, Copy, Debug, PartialEq, Eq, Structural)]
pub enum StartOptions {
    /// Start from the given block height.
    FromBlock { height: BlockHeight },
    /// Resume from the highest height that an earlier run recorded.
    FromInterruption,
    /// Start from the block that the network finalized last.
    FromLatest,
}

/// The network to index, together with the start options given for it.
#[derive(Clone, Copy, Debug, PartialEq, Eq, Structural)]
pub enum ChainId {
    Mainnet(StartOptions),
    Testnet(StartOptions),
}

impl ChainId {
    /// The start options carried by either network.
    pub open spec fn start_options(self) -> StartOptions {
        match self {
            ChainId::Mainnet(options) => options,
            ChainId::Testnet(options) => options,
        }
    }
}

} // verus!
