//! How far below the chain tip blocks are still treated as provisional.
use vstd::prelude::*;

verus! {

/// The chain identifier of the primary chain, whose finality is short.
pub const PRIMARY_CHAIN_ID: u64 = 1;

/// The safe distance on the primary chain.
pub const PRIMARY_SAFE_DISTANCE: u64 = 12;

/// The conservative safe distance on every other chain.
pub const DEFAULT_SAFE_DISTANCE: u64 = 64;

/// The number of blocks below the tip that a chain may still reorganise.
pub open spec fn safe_distance(chain_id: u64) -> u64 {
    if chain_id == PRIMARY_CHAIN_ID {
        PRIMARY_SAFE_DISTANCE
    } else {
        DEFAULT_SAFE_DISTANCE
    }
}

/// The safe distance of a chain: short on the primary chain, the
/// conservative default on all others.
pub fn reorg_safe_distance_for_chain(chain_id: u64) -> (r: u64)
    ensures
        r == safe_distance(chain_id),
        chain_id == PRIMARY_CHAIN_ID ==> r == 12,
        chain_id != PRIMARY_CHAIN_ID ==> r == 64,
{
    if chain_id == PRIMARY_CHAIN_ID {
        PRIMARY_SAFE_DISTANCE
    } else {
        DEFAULT_SAFE_DISTANCE
    }
}

} // verus!
