//! Chain-reorganisation handling for a block-event indexer: the finality
//! policy, the classification of chain-state notifications, the search for
//! the fork point, and the storage operations that undo orphaned data.
use vstd::prelude::*;

pub mod cache;
pub mod fork_point;
pub mod notification;
pub mod policy;
pub mod recovery;
pub mod statement;
pub mod storage;

pub use cache::BlockMeta;
pub use fork_point::{
    begin_fork_search, begin_fork_search_within, find_fork_point, fork_point_candidates,
    fork_point_candidates_within, same_hash, CanonicalBlock, ForkSearch, ScanLimits,
    MAX_FORK_CANDIDATES, SCAN_GAP_ALLOWANCE,
};
pub use notification::{
    handle_chain_notification, reorg_metric, ChainStateNotification, ReorgInfo, ReorgMetric,
};
pub use policy::{
    reorg_safe_distance_for_chain, DEFAULT_SAFE_DISTANCE, PRIMARY_CHAIN_ID, PRIMARY_SAFE_DISTANCE,
};
pub use recovery::{
    handle_native_transfer_reorg_recovery, handle_reorg_recovery, RecoveryProgress, RecoveryTarget,
    StorageAction, StorageBackend, StorageOp, NATIVE_TRANSFER_CONTRACT, NATIVE_TRANSFER_EVENT,
};
pub use statement::{push_decimal, render_statement};

verus! {

} // verus!
