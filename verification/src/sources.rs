//! Answers of the two sources of truth that a resolution may consult: the
//! store of recorded heights and the network.
//!
//! Each source is asked by the caller, once, without retries. What it said
//! is classified here, so that the resolver reasons about plain values.

use vstd::prelude::*;
use crate::start_options::BlockHeight;

verus! {

/// What the store answered when asked for the highest height recorded by an
/// earlier run. An empty store and a failed query lead to the same fallback,
/// and are kept apart because only the failure is worth a warning.
#[derive(Clone, Copy, Debug, PartialEq, Eq, Structural)]
pub enum PersistedHeightQueryResult {
    /// The store holds a recorded height.
    Found(BlockHeight),
    /// The store was reached and holds no record.
    NotFound,
    /// The store was not reached, or the query failed.
    Unavailable,
}

impl PersistedHeightQueryResult {
    /// The classification of one query attempt: any error is `Unavailable`,
    /// whatever it was.
    pub open spec fn of_query<E>(outcome: Result<Option<BlockHeight>, E>) -> Self {
        match outcome {
            Ok(Some(height)) => PersistedHeightQueryResult::Found(height),
            Ok(None) => PersistedHeightQueryResult::NotFound,
            Err(_) => PersistedHeightQueryResult::Unavailable,
        }
    }

    /// Classifies the outcome of one query attempt.
    pub fn from_query<E>(outcome: &Result<Option<BlockHeight>, E>) -> (result: Self)
        ensures
            result == Self::of_query(*outcome),
    {
        match outcome {
            Ok(Some(height)) => PersistedHeightQueryResult::Found(*height),
            Ok(None) => PersistedHeightQueryResult::NotFound,
            Err(_) => PersistedHeightQueryResult::Unavailable,
        }
    }
}

/// What the network answered when asked for the height of its latest
/// finalized block. The node's judgment of finality is taken as it is.
#[derive(Clone, Copy, Debug, PartialEq, Eq, Structural)]
pub enum FinalizedHeightQueryResult {
    /// The height in the header of the latest finalized block.
    Finalized(BlockHeight),
    /// The node was not reached, or its response could not be read.
    NetworkError,
}

impl FinalizedHeightQueryResult {
    /// The classification of one request: any error is `NetworkError`.
    pub open spec fn of_query<E>(outcome: Result<BlockHeight, E>) -> Self {
        match outcome {
            Ok(height) => FinalizedHeightQueryResult::Finalized(height),
            Err(_) => FinalizedHeightQueryResult::NetworkError,
        }
    }

    /// Classifies the outcome of one request.
    pub fn from_query<E>(outcome: &Result<BlockHeight, E>) -> (result: Self)
        ensures
            result == Self::of_query(*outcome),
    {
        match outcome {
            Ok(height) => FinalizedHeightQueryResult::Finalized(*height),
            Err(_) => FinalizedHeightQueryResult::NetworkError,
        }
    }
}

} // verus!
