//! Classification of chain-state notifications into reorg descriptors.
use vstd::prelude::*;

verus! {

/// An event of the chain-state stream of one network.
#[derive(Clone, Copy, Debug, PartialEq, Eq)]
pub enum ChainStateNotification {
    /// A fork was detected and the chain now follows a new branch.
    Reorged {
        revert_from_block: u64,
        revert_to_block: u64,
        new_from_block: u64,
        new_to_block: u64,
        new_tip_hash: [u8; 32],
    },
    /// A range of blocks was invalidated, with no replacement known yet.
    Reverted { from_block: u64, to_block: u64 },
    /// The chain moved forward.
    Committed { from_block: u64, to_block: u64, tip_hash: [u8; 32] },
}

/// A detected reorganisation: re-indexing resumes at `fork_block`, and
/// `depth` is how many blocks were given up, for observability only.
#[derive(Clone, Copy, Debug, PartialEq, Eq, Structural)]
pub struct ReorgInfo {
    pub fork_block: u64,
    pub depth: u64,
}

/// `from - to`, or zero where `to` is past `from`.
pub open spec fn sat_sub(from: u64, to: u64) -> u64 {
    if from >= to {
        (from - to) as u64
    } else {
        0
    }
}

/// The descriptor that a notification calls for, if any.
pub open spec fn classify(n: ChainStateNotification) -> Option<ReorgInfo> {
    match n {
        ChainStateNotification::Reorged { revert_from_block, revert_to_block, .. } => Some(
            ReorgInfo {
                fork_block: revert_to_block,
                depth: sat_sub(revert_from_block, revert_to_block),
            },
        ),
        ChainStateNotification::Reverted { from_block, to_block } => Some(
            ReorgInfo { fork_block: to_block, depth: sat_sub(from_block, to_block) },
        ),
        ChainStateNotification::Committed { .. } => None,
    }
}

/// Turns a chain-state notification into a reorg descriptor. A reorg or a
/// revert gives one whose fork block is the last block kept by the event and
/// whose depth is the saturated length of the reverted range; forward
/// progress gives none. The caller records the depth of a descriptor in its
/// metrics on `network`, and records nothing where none comes back.
pub fn handle_chain_notification(
    notification: ChainStateNotification,
    info_log_name: &str,
    network: &str,
) -> (r: Option<ReorgInfo>)
    ensures
        r == classify(notification),
        r is Some <==> !(notification is Committed),
        r matches Some(info) ==> info.depth as int == (match notification {
            ChainStateNotification::Reorged { revert_from_block, revert_to_block, .. } => {
                if revert_from_block >= revert_to_block {
                    revert_from_block - revert_to_block
                } else {
                    0int
                }
            },
            ChainStateNotification::Reverted { from_block, to_block } => {
                if from_block >= to_block {
                    from_block - to_block
                } else {
                    0int
                }
            },
            ChainStateNotification::Committed { .. } => 0int,
        }),
{
    match notification {
        ChainStateNotification::Reorged { revert_from_block, revert_to_block, .. } => {
            let depth = revert_from_block.saturating_sub(revert_to_block);
            Some(ReorgInfo { fork_block: revert_to_block, depth })
        },
        ChainStateNotification::Reverted { from_block, to_block } => {
            let depth = from_block.saturating_sub(to_block);
            Some(ReorgInfo { fork_block: to_block, depth })
        },
        ChainStateNotification::Committed { .. } => None,
    }
}

/// A reorganisation observation for the metrics sink.
#[derive(Debug, PartialEq, Eq)]
pub struct ReorgMetric {
    pub network: String,
    pub depth: u64,
}

/// What the metrics sink is to record for a notification on `network`: the
/// depth of a reorg or a revert, and nothing for forward progress.
pub fn reorg_metric(notification: ChainStateNotification, network: &str) -> (r: Option<
    ReorgMetric,
>)
    ensures
        notification is Committed ==> r is None,
        !(notification is Committed) ==> (r matches Some(m) && m.network@ == network@ && m.depth
            == classify(notification).unwrap().depth),
{
    match handle_chain_notification(notification, "", network) {
        Some(info) => Some(ReorgMetric { network: network.to_owned(), depth: info.depth }),
        None => None,
    }
}

} // verus!
