use std::collections::BTreeMap;
use std::num::NonZeroUsize;

use alloy::primitives::U64;
use lru::LruCache;
use reorg::{
    begin_fork_search, begin_fork_search_within, find_fork_point, fork_point_candidates,
    fork_point_candidates_within, handle_chain_notification, handle_native_transfer_reorg_recovery,
    handle_reorg_recovery, push_decimal, reorg_metric, reorg_safe_distance_for_chain,
    render_statement, same_hash, BlockMeta, CanonicalBlock, ChainStateNotification, ForkSearch,
    RecoveryProgress, RecoveryTarget, ReorgInfo, ReorgMetric, ScanLimits, StorageAction,
    StorageBackend, StorageOp,
};

fn hash(b: u8) -> [u8; 32] {
    [b; 32]
}

fn cache_of(entries: &[(u64, u8)]) -> LruCache<u64, BlockMeta> {
    let mut cache = LruCache::new(NonZeroUsize::new(1024).unwrap());
    for (number, h) in entries {
        cache.put(*number, BlockMeta { number: *number, hash: hash(*h) });
    }
    cache
}

fn canonical(entries: &[(u64, u8)]) -> Vec<CanonicalBlock> {
    entries.iter().map(|(n, h)| CanonicalBlock { number: *n, hash: hash(*h) }).collect()
}

fn target(postgres: bool, clickhouse: bool) -> RecoveryTarget {
    RecoveryTarget {
        network: "ethereum".to_string(),
        schema: "my_indexer_erc20".to_string(),
        event_table: "transfer".to_string(),
        event_name: "Transfer".to_string(),
        postgres,
        clickhouse,
    }
}

#[test]
fn test_reorg_safe_distance_for_chain() {
    let mainnet_chain_id = 1;
    assert_eq!(U64::from(reorg_safe_distance_for_chain(mainnet_chain_id)), U64::from(12));

    let testnet_chain_id = 3;
    assert_eq!(U64::from(reorg_safe_distance_for_chain(testnet_chain_id)), U64::from(64));

    let other_chain_id = 42;
    assert_eq!(U64::from(reorg_safe_distance_for_chain(other_chain_id)), U64::from(64));
}

#[test]
fn safe_distance_is_conservative_off_the_primary_chain() {
    for chain_id in [0u64, 2, 10, 137, 8453, u64::MAX] {
        assert_eq!(reorg_safe_distance_for_chain(chain_id), 64);
    }
    assert_eq!(reorg_safe_distance_for_chain(1), 12);
}

#[test]
fn reorged_event_gives_fork_and_depth() {
    let n = ChainStateNotification::Reorged {
        revert_from_block: 100,
        revert_to_block: 95,
        new_from_block: 95,
        new_to_block: 100,
        new_tip_hash: hash(7),
    };
    assert_eq!(
        handle_chain_notification(n, "indexer", "ethereum"),
        Some(ReorgInfo { fork_block: 95, depth: 5 })
    );
}

#[test]
fn reverted_event_gives_fork_and_depth() {
    let n = ChainStateNotification::Reverted { from_block: 20, to_block: 17 };
    assert_eq!(
        handle_chain_notification(n, "indexer", "ethereum"),
        Some(ReorgInfo { fork_block: 17, depth: 3 })
    );
}

#[test]
fn inverted_range_gives_zero_depth() {
    let n = ChainStateNotification::Reverted { from_block: 10, to_block: 12 };
    assert_eq!(
        handle_chain_notification(n, "indexer", "ethereum"),
        Some(ReorgInfo { fork_block: 12, depth: 0 })
    );
    let n = ChainStateNotification::Reorged {
        revert_from_block: 0,
        revert_to_block: u64::MAX,
        new_from_block: 1,
        new_to_block: 2,
        new_tip_hash: hash(1),
    };
    assert_eq!(
        handle_chain_notification(n, "indexer", "ethereum"),
        Some(ReorgInfo { fork_block: u64::MAX, depth: 0 })
    );
}

#[test]
fn committed_event_gives_nothing() {
    let n = ChainStateNotification::Committed { from_block: 5, to_block: 9, tip_hash: hash(3) };
    assert_eq!(handle_chain_notification(n, "indexer", "ethereum"), None);
}

#[test]
fn empty_cache_keeps_suspected_block() {
    let cache = cache_of(&[]);
    assert_eq!(begin_fork_search(&cache, 100), ForkSearch::Resolved(100));
    assert_eq!(find_fork_point(&cache, 100, &Vec::new(), None), 100);
    assert_eq!(find_fork_point(&cache, 100, &Vec::new(), Some(&canonical(&[(99, 1)]))), 100);
}

#[test]
fn candidates_are_cached_blocks_newest_first() {
    let cache = cache_of(&[(90, 1), (91, 2), (92, 3), (95, 4)]);
    assert_eq!(fork_point_candidates(&cache, 93), vec![92, 91, 90]);
    assert_eq!(begin_fork_search(&cache, 93), ForkSearch::NeedCanonical(vec![92, 91, 90]));
}

#[test]
fn candidates_are_capped() {
    let entries: Vec<(u64, u8)> = (1..=100u64).map(|n| (n, 1u8)).collect();
    let cache = cache_of(&entries);
    let c = fork_point_candidates(&cache, 101);
    assert_eq!(c.len(), 64);
    assert_eq!(c[0], 100);
    assert_eq!(c[63], 37);
}

#[test]
fn scan_window_is_bounded() {
    // One entry: the window reaches 65 blocks below 999, down to 934.
    let cache = cache_of(&[(800, 1)]);
    assert_eq!(begin_fork_search(&cache, 1000), ForkSearch::Resolved(1000));
    let cache = cache_of(&[(934, 1)]);
    assert_eq!(fork_point_candidates(&cache, 1000), vec![934]);
    let cache = cache_of(&[(933, 1)]);
    assert_eq!(fork_point_candidates(&cache, 1000), Vec::<u64>::new());
}

#[test]
fn scan_stops_at_genesis() {
    let cache = cache_of(&[(0, 1), (1, 2)]);
    assert_eq!(fork_point_candidates(&cache, 2), vec![1, 0]);
    assert_eq!(fork_point_candidates(&cache, 0), vec![0]);
}

#[test]
fn fork_point_scenario_b() {
    let cache = cache_of(&[(90, 0xA), (91, 0xB), (92, 0xC)]);
    let candidates = fork_point_candidates(&cache, 93);
    let answer = canonical(&[(92, 0xF), (91, 0xB), (90, 0xA)]);
    assert_eq!(find_fork_point(&cache, 93, &candidates, Some(&answer)), 92);
}

#[test]
fn newest_match_wins() {
    let cache = cache_of(&[(90, 0xA), (91, 0xB), (92, 0xC)]);
    let candidates = fork_point_candidates(&cache, 93);
    let answer = canonical(&[(92, 0xC), (91, 0xB), (90, 0xA)]);
    assert_eq!(find_fork_point(&cache, 93, &candidates, Some(&answer)), 93);
}

#[test]
fn no_match_takes_oldest_candidate() {
    let cache = cache_of(&[(90, 0xA), (91, 0xB), (92, 0xC)]);
    let candidates = fork_point_candidates(&cache, 93);
    let answer = canonical(&[(92, 0x1), (91, 0x2), (90, 0x3)]);
    assert_eq!(find_fork_point(&cache, 93, &candidates, Some(&answer)), 90);
}

#[test]
fn failed_query_steps_back_one_block() {
    let cache = cache_of(&[(90, 0xA), (91, 0xB), (92, 0xC)]);
    let candidates = fork_point_candidates(&cache, 93);
    assert_eq!(find_fork_point(&cache, 93, &candidates, None), 92);
}

#[test]
fn hashes_compare_by_every_byte() {
    let a = hash(5);
    let mut b = hash(5);
    assert!(same_hash(&a, &b));
    b[31] = 6;
    assert!(!same_hash(&a, &b));
}

/// An in-memory backend: rows by (backend, schema, table, network) and the
/// checkpoints by (backend, schema, event, network).
#[derive(Default, PartialEq, Debug, Clone)]
struct Store {
    rows: BTreeMap<(bool, String, String, String), Vec<u64>>,
    checkpoints: BTreeMap<(bool, String, String, String), u64>,
}

impl Store {
    fn apply(&mut self, ops: &[StorageOp]) {
        for op in ops {
            let pg = op.backend == StorageBackend::Postgres;
            match &op.action {
                StorageAction::DeleteEvents { schema, table, network, from_block, .. } => {
                    if let Some(rows) =
                        self.rows.get_mut(&(pg, schema.clone(), table.clone(), network.clone()))
                    {
                        rows.retain(|b| b < from_block);
                    }
                }
                StorageAction::RewindCheckpoint { schema, event_name, network, block, .. } => {
                    self.checkpoints.insert(
                        (pg, schema.clone(), event_name.clone(), network.clone()),
                        *block,
                    );
                }
            }
        }
    }
}

fn seeded_store() -> Store {
    let mut s = Store::default();
    for pg in [true, false] {
        s.rows.insert(
            (pg, "my_indexer_erc20".into(), "transfer".into(), "ethereum".into()),
            vec![90, 94, 95, 99, 100],
        );
        s.rows.insert(
            (pg, "my_indexer_erc20".into(), "transfer".into(), "base".into()),
            vec![95, 120],
        );
        s.checkpoints.insert(
            (pg, "my_indexer_erc20".into(), "Transfer".into(), "ethereum".into()),
            100,
        );
    }
    s
}

#[test]
fn recovery_scenario_a() {
    let info = handle_chain_notification(
        ChainStateNotification::Reorged {
            revert_from_block: 100,
            revert_to_block: 95,
            new_from_block: 95,
            new_to_block: 100,
            new_tip_hash: hash(9),
        },
        "indexer",
        "ethereum",
    )
    .unwrap();
    let ops = handle_reorg_recovery(&target(true, true), &info);
    assert_eq!(ops.len(), 4);
    assert_eq!(ops[0].backend, StorageBackend::Postgres);
    assert_eq!(ops[2].backend, StorageBackend::Clickhouse);
    match &ops[0].action {
        StorageAction::DeleteEvents { schema, table, network, from_block, synchronous } => {
            assert_eq!(schema, "my_indexer_erc20");
            assert_eq!(table, "transfer");
            assert_eq!(network, "ethereum");
            assert_eq!(*from_block, 95);
            assert!(!synchronous);
        }
        other => panic!("unexpected {:?}", other),
    }
    match &ops[1].action {
        StorageAction::RewindCheckpoint { event_name, block, append, .. } => {
            assert_eq!(event_name, "Transfer");
            assert_eq!(*block, 94);
            assert!(!append);
        }
        other => panic!("unexpected {:?}", other),
    }
    match &ops[2].action {
        StorageAction::DeleteEvents { from_block, synchronous, network, .. } => {
            assert_eq!(*from_block, 95);
            assert_eq!(network, "ethereum");
            assert!(*synchronous);
        }
        other => panic!("unexpected {:?}", other),
    }
    match &ops[3].action {
        StorageAction::RewindCheckpoint { block, append, .. } => {
            assert_eq!(*block, 94);
            assert!(*append);
        }
        other => panic!("unexpected {:?}", other),
    }
    let mut store = seeded_store();
    store.apply(&ops);
    for pg in [true, false] {
        let key = (pg, "my_indexer_erc20".to_string(), "transfer".to_string(), "ethereum".to_string());
        assert_eq!(store.rows[&key], vec![90, 94]);
        let other = (pg, "my_indexer_erc20".to_string(), "transfer".to_string(), "base".to_string());
        assert_eq!(store.rows[&other], vec![95, 120]);
        let cp = (pg, "my_indexer_erc20".to_string(), "Transfer".to_string(), "ethereum".to_string());
        assert_eq!(store.checkpoints[&cp], 94);
    }
}

#[test]
fn recovery_is_idempotent_on_a_store() {
    let ops = handle_reorg_recovery(&target(true, true), &ReorgInfo { fork_block: 95, depth: 5 });
    let mut once = seeded_store();
    once.apply(&ops);
    let mut twice = once.clone();
    twice.apply(&ops);
    assert_eq!(once, twice);
}

#[test]
fn recovery_at_genesis_rewinds_to_zero() {
    let ops = handle_reorg_recovery(&target(true, false), &ReorgInfo { fork_block: 0, depth: 0 });
    match &ops[1].action {
        StorageAction::RewindCheckpoint { block, .. } => assert_eq!(*block, 0),
        other => panic!("unexpected {:?}", other),
    }
}

#[test]
fn native_transfer_scenario_c() {
    let ops = handle_native_transfer_reorg_recovery(true, "my_indexer_evm_traces", "ethereum", 50);
    assert_eq!(ops.len(), 2);
    assert!(ops.iter().all(|op| op.backend == StorageBackend::Postgres));
    match &ops[0].action {
        StorageAction::DeleteEvents { schema, table, network, from_block, .. } => {
            assert_eq!(schema, "my_indexer_evm_traces");
            assert_eq!(table, "native_transfer");
            assert_eq!(network, "ethereum");
            assert_eq!(*from_block, 50);
        }
        other => panic!("unexpected {:?}", other),
    }
    match &ops[1].action {
        StorageAction::RewindCheckpoint { event_name, block, .. } => {
            assert_eq!(event_name, "native_transfer");
            assert_eq!(*block, 49);
        }
        other => panic!("unexpected {:?}", other),
    }
    assert!(handle_native_transfer_reorg_recovery(false, "s", "ethereum", 50).is_empty());
}

#[test]
fn one_backend_scenario_d() {
    let info = ReorgInfo { fork_block: 95, depth: 5 };
    let ops = handle_reorg_recovery(&target(false, true), &info);
    assert_eq!(ops.len(), 2);
    assert!(ops.iter().all(|op| op.backend == StorageBackend::Clickhouse));
    let ops = handle_reorg_recovery(&target(true, false), &info);
    assert_eq!(ops.len(), 2);
    assert!(ops.iter().all(|op| op.backend == StorageBackend::Postgres));
    let mut store = seeded_store();
    store.apply(&ops);
    let ch = (false, "my_indexer_erc20".to_string(), "transfer".to_string(), "ethereum".to_string());
    assert_eq!(store.rows[&ch], vec![90, 94, 95, 99, 100]);
    assert!(handle_reorg_recovery(&target(false, false), &info).is_empty());
}

#[test]
fn backend_capabilities() {
    assert!(StorageBackend::Clickhouse.supports_synchronous_delete());
    assert!(!StorageBackend::Postgres.supports_synchronous_delete());
    assert!(StorageBackend::Clickhouse.appends_checkpoint());
    assert!(!StorageBackend::Postgres.appends_checkpoint());
}

#[test]
fn newest_match_wins_whatever_the_answer_order() {
    let cache = cache_of(&[(90, 0xA), (91, 0xB)]);
    let candidates = fork_point_candidates(&cache, 92);
    assert_eq!(candidates, vec![91, 90]);
    let answer = canonical(&[(90, 0xA), (91, 0xB)]);
    assert_eq!(find_fork_point(&cache, 92, &candidates, Some(&answer)), 92);
}

#[test]
fn scan_limits_are_configurable() {
    let cache = cache_of(&[(90, 1), (91, 2), (92, 3)]);
    let two = ScanLimits { max_candidates: 2, gap_allowance: 64 };
    assert_eq!(fork_point_candidates_within(&cache, 93, two), vec![92, 91]);
    let none = ScanLimits { max_candidates: 0, gap_allowance: 64 };
    assert_eq!(begin_fork_search_within(&cache, 93, none), ForkSearch::Resolved(93));
    // Two entries and no gap allowance: the window is 92 down to 90.
    let cache = cache_of(&[(88, 1), (89, 2)]);
    let tight = ScanLimits { max_candidates: 64, gap_allowance: 0 };
    assert_eq!(fork_point_candidates_within(&cache, 93, tight), Vec::<u64>::new());
    assert_eq!(ScanLimits::standard(), ScanLimits { max_candidates: 64, gap_allowance: 64 });
}

#[test]
fn metrics_record_reorgs_only() {
    let n = ChainStateNotification::Reverted { from_block: 20, to_block: 17 };
    assert_eq!(
        reorg_metric(n, "base"),
        Some(ReorgMetric { network: "base".to_string(), depth: 3 })
    );
    let n = ChainStateNotification::Committed { from_block: 5, to_block: 9, tip_hash: hash(3) };
    assert_eq!(reorg_metric(n, "base"), None);
}

#[test]
fn failed_delete_holds_back_rewind() {
    let ops = handle_reorg_recovery(&target(true, true), &ReorgInfo { fork_block: 95, depth: 5 });
    let mut progress = RecoveryProgress::new();
    assert!(progress.should_run(&ops[0]));
    progress.record(&ops[0], false);
    assert!(!progress.should_run(&ops[1]));
    assert!(progress.should_run(&ops[2]));
    progress.record(&ops[2], true);
    assert!(progress.should_run(&ops[3]));
}

#[test]
fn decimal_text() {
    let mut s = String::from("n=");
    push_decimal(&mut s, 0);
    assert_eq!(s, "n=0");
    let mut s = String::new();
    push_decimal(&mut s, u64::MAX);
    assert_eq!(s, "18446744073709551615");
}

#[test]
fn statements_scenario_a() {
    let ops = handle_reorg_recovery(&target(true, true), &ReorgInfo { fork_block: 95, depth: 5 });
    assert_eq!(
        render_statement(&ops[0], "unused"),
        "DELETE FROM my_indexer_erc20.transfer WHERE block_number >= 95 AND network = 'ethereum'"
    );
    assert_eq!(
        render_statement(&ops[1], "my_indexer_erc20_transfer"),
        "UPDATE rindexer_internal.my_indexer_erc20_transfer SET last_synced_block = 94 WHERE network = 'ethereum'"
    );
    assert_eq!(
        render_statement(&ops[2], "unused"),
        "ALTER TABLE my_indexer_erc20.transfer DELETE WHERE block_number >= 95 AND network = 'ethereum' SETTINGS mutations_sync = 1"
    );
    assert_eq!(
        render_statement(&ops[3], "my_indexer_erc20_transfer"),
        "INSERT INTO rindexer_internal.my_indexer_erc20_transfer (network, last_synced_block) VALUES ('ethereum', 94)"
    );
}
