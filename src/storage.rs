//! A model of what the storage backends hold, and what recovery does to it.
use vstd::prelude::*;

use crate::notification::sat_sub;
use crate::recovery::{
    is_delete, is_recovery_plan, is_rewind, RecoveryScope, StorageAction, StorageBackend,
    StorageOp,
};

verus! {

/// An event row held by a backend.
pub struct StoredRow {
    pub backend: StorageBackend,
    pub schema: Seq<char>,
    pub table: Seq<char>,
    pub network: Seq<char>,
    pub block_number: u64,
}

/// The key of a checkpoint: one per backend, event and network.
pub struct CheckpointKey {
    pub backend: StorageBackend,
    pub schema: Seq<char>,
    pub event_name: Seq<char>,
    pub network: Seq<char>,
}

/// What the backends hold: event rows, and the last synced block of each
/// checkpoint as any later reader sees it.
pub struct StorageState {
    pub rows: Set<StoredRow>,
    pub checkpoints: Map<CheckpointKey, u64>,
}

/// The state after one operation. A delete removes the matching rows; a
/// rewind sets the checkpoint, in place or by an appended record whose value
/// wins, which readers cannot tell apart.
pub open spec fn apply_op(s: StorageState, op: StorageOp) -> StorageState {
    match op.action {
        StorageAction::DeleteEvents { schema, table, network, from_block, .. } => StorageState {
            rows: s.rows.filter(
                |r: StoredRow|
                    !(r.backend == op.backend && r.schema == schema@ && r.table == table@
                        && r.network == network@ && r.block_number >= from_block),
            ),
            checkpoints: s.checkpoints,
        },
        StorageAction::RewindCheckpoint { schema, event_name, network, block, .. } => StorageState {
            rows: s.rows,
            checkpoints: s.checkpoints.insert(
                CheckpointKey {
                    backend: op.backend,
                    schema: schema@,
                    event_name: event_name@,
                    network: network@,
                },
                block,
            ),
        },
    }
}

/// The state after the first `n` operations, in order.
pub open spec fn apply_prefix(s: StorageState, ops: Seq<StorageOp>, n: nat) -> StorageState
    decreases n,
{
    if n == 0 || n > ops.len() {
        s
    } else {
        apply_op(apply_prefix(s, ops, (n - 1) as nat), ops[n - 1])
    }
}

/// The state after all the operations, in order.
pub open spec fn apply_ops(s: StorageState, ops: Seq<StorageOp>) -> StorageState {
    apply_prefix(s, ops, ops.len())
}

/// Whether a row is orphaned by a reorganisation at `fork_block` of a scope.
pub open spec fn orphaned(r: StoredRow, t: RecoveryScope, fork_block: u64) -> bool {
    &&& (t.postgres && r.backend is Postgres) || (t.clickhouse && r.backend is Clickhouse)
    &&& r.schema == t.schema
    &&& r.table == t.event_table
    &&& r.network == t.network
    &&& r.block_number >= fork_block
}

/// The checkpoint of a scope on a backend.
pub open spec fn checkpoint_key(b: StorageBackend, t: RecoveryScope) -> CheckpointKey {
    CheckpointKey { backend: b, schema: t.schema, event_name: t.event_name, network: t.network }
}

/// The state of a recovered scope: its orphaned rows gone, and its
/// checkpoint on each configured backend one below the fork block.
pub open spec fn recovered(s: StorageState, t: RecoveryScope, fork_block: u64) -> StorageState {
    let rewind = sat_sub(fork_block, 1);
    let first = if t.postgres {
        s.checkpoints.insert(checkpoint_key(StorageBackend::Postgres, t), rewind)
    } else {
        s.checkpoints
    };
    StorageState {
        rows: s.rows.filter(|r: StoredRow| !orphaned(r, t, fork_block)),
        checkpoints: if t.clickhouse {
            first.insert(checkpoint_key(StorageBackend::Clickhouse, t), rewind)
        } else {
            first
        },
    }
}

/// The state after a delete and a rewind on one backend.
pub open spec fn backend_recovered(
    s: StorageState,
    b: StorageBackend,
    t: RecoveryScope,
    fork_block: u64,
) -> StorageState {
    StorageState {
        rows: s.rows.filter(
            |r: StoredRow|
                !(r.backend == b && r.schema == t.schema && r.table == t.event_table && r.network
                    == t.network && r.block_number >= fork_block),
        ),
        checkpoints: s.checkpoints.insert(checkpoint_key(b, t), sat_sub(fork_block, 1)),
    }
}

proof fn lemma_backend_steps(
    s: StorageState,
    del: StorageOp,
    rew: StorageOp,
    b: StorageBackend,
    t: RecoveryScope,
    fork_block: u64,
)
    requires
        is_delete(del, b, t, fork_block),
        is_rewind(rew, b, t, sat_sub(fork_block, 1)),
    ensures
        apply_op(apply_op(s, del), rew) == backend_recovered(s, b, t, fork_block),
{
    let after = apply_op(apply_op(s, del), rew);
    let want = backend_recovered(s, b, t, fork_block);
    assert(after.rows =~= want.rows);
    assert(after.checkpoints =~= want.checkpoints);
}

/// Applying a recovery plan gives the recovered state.
pub proof fn lemma_plan_effect(s: StorageState, ops: Seq<StorageOp>, t: RecoveryScope, fork_block: u64)
    requires
        is_recovery_plan(ops, t, fork_block),
    ensures
        apply_ops(s, ops) == recovered(s, t, fork_block),
{
    let want = recovered(s, t, fork_block);
    reveal_with_fuel(apply_prefix, 5);
    if t.postgres {
        let s2 = backend_recovered(s, StorageBackend::Postgres, t, fork_block);
        assert(apply_prefix(s, ops, 2) == apply_op(apply_op(s, ops[0]), ops[1]));
        lemma_backend_steps(s, ops[0], ops[1], StorageBackend::Postgres, t, fork_block);
        if t.clickhouse {
            let s4 = backend_recovered(s2, StorageBackend::Clickhouse, t, fork_block);
            assert(apply_prefix(s, ops, 4) == apply_op(apply_op(apply_prefix(s, ops, 2), ops[2]), ops[3]));
            lemma_backend_steps(s2, ops[2], ops[3], StorageBackend::Clickhouse, t, fork_block);
            assert(s4.rows =~= want.rows);
            assert(s4.checkpoints =~= want.checkpoints);
        } else {
            assert(s2.rows =~= want.rows);
            assert(s2.checkpoints =~= want.checkpoints);
        }
    } else if t.clickhouse {
        let s2 = backend_recovered(s, StorageBackend::Clickhouse, t, fork_block);
        assert(apply_prefix(s, ops, 2) == apply_op(apply_op(s, ops[0]), ops[1]));
        lemma_backend_steps(s, ops[0], ops[1], StorageBackend::Clickhouse, t, fork_block);
        assert(s2.rows =~= want.rows);
        assert(s2.checkpoints =~= want.checkpoints);
    } else {
        assert(s.rows =~= want.rows);
        assert(s.checkpoints =~= want.checkpoints);
    }
}

/// Recovery is idempotent: running a recovery plan a second time leaves the
/// storage as the first run left it.
pub proof fn lemma_recovery_idempotent(
    s: StorageState,
    ops: Seq<StorageOp>,
    t: RecoveryScope,
    fork_block: u64,
)
    requires
        is_recovery_plan(ops, t, fork_block),
    ensures
        apply_ops(apply_ops(s, ops), ops) == apply_ops(s, ops),
{
    let once = recovered(s, t, fork_block);
    lemma_plan_effect(s, ops, t, fork_block);
    lemma_plan_effect(once, ops, t, fork_block);
    let twice = recovered(once, t, fork_block);
    assert(twice.rows =~= once.rows);
    assert(twice.checkpoints =~= once.checkpoints);
}

/// After a recovery plan has run, no row of the scope's table and network
/// on a configured backend lies at or above the fork block, every other row
/// is kept, and the checkpoint on each configured backend is one below the
/// fork block.
pub proof fn lemma_recovery_outcome(
    s: StorageState,
    ops: Seq<StorageOp>,
    t: RecoveryScope,
    fork_block: u64,
)
    requires
        is_recovery_plan(ops, t, fork_block),
    ensures
        forall|r: StoredRow| #[trigger]
            apply_ops(s, ops).rows.contains(r) <==> (s.rows.contains(r) && !orphaned(
                r,
                t,
                fork_block,
            )),
        t.postgres ==> apply_ops(s, ops).checkpoints[checkpoint_key(StorageBackend::Postgres, t)]
            == sat_sub(fork_block, 1),
        t.clickhouse ==> apply_ops(s, ops).checkpoints[checkpoint_key(
            StorageBackend::Clickhouse,
            t,
        )] == sat_sub(fork_block, 1),
{
    lemma_plan_effect(s, ops, t, fork_block);
}

/// A backend that the scope does not configure is left as it was: its rows
/// and its checkpoints.
pub proof fn lemma_absent_backend_untouched(
    s: StorageState,
    ops: Seq<StorageOp>,
    t: RecoveryScope,
    fork_block: u64,
    b: StorageBackend,
)
    requires
        is_recovery_plan(ops, t, fork_block),
        b is Postgres ==> !t.postgres,
        b is Clickhouse ==> !t.clickhouse,
    ensures
        forall|r: StoredRow|
            r.backend == b ==> (#[trigger] apply_ops(s, ops).rows.contains(r) <==> s.rows.contains(
                r,
            )),
        forall|k: CheckpointKey|
            k.backend == b ==> (#[trigger] apply_ops(s, ops).checkpoints.contains_key(k)
                <==> s.checkpoints.contains_key(k)) && (s.checkpoints.contains_key(k)
                ==> apply_ops(s, ops).checkpoints[k] == s.checkpoints[k]),
{
    lemma_plan_effect(s, ops, t, fork_block);
}

} // verus!
