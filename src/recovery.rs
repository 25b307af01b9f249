//! The storage operations that undo a reorganisation: for each configured
//! backend, delete the orphaned rows, then rewind the checkpoint.
use vstd::prelude::*;

use crate::notification::sat_sub;
use crate::notification::ReorgInfo;

verus! {

/// The table and checkpoint identity of the native-transfer stream.
pub const NATIVE_TRANSFER_EVENT: &'static str = "native_transfer";

/// The contract name from which the native-transfer stream's schema is
/// derived.
pub const NATIVE_TRANSFER_CONTRACT: &'static str = "EvmTraces";

/// A storage backend that recovery can write to.
#[derive(Clone, Copy, Debug, PartialEq, Eq, Structural)]
pub enum StorageBackend {
    /// The SQL backend: checkpoints are updated in place.
    Postgres,
    /// The columnar backend: deletes are mutations, checkpoints an append log.
    Clickhouse,
}

/// Whether a backend's delete must be asked to complete before returning.
pub open spec fn spec_synchronous_delete(b: StorageBackend) -> bool {
    b is Clickhouse
}

/// Whether a backend records a checkpoint by appending a new record.
pub open spec fn spec_appends_checkpoint(b: StorageBackend) -> bool {
    b is Clickhouse
}

impl StorageBackend {
    /// Whether a delete on this backend is to be made synchronous, so that no
    /// re-indexing write races with it.
    pub fn supports_synchronous_delete(&self) -> (r: bool)
        ensures
            r == spec_synchronous_delete(*self),
    {
        match self {
            StorageBackend::Postgres => false,
            StorageBackend::Clickhouse => true,
        }
    }

    /// Whether this backend rewinds a checkpoint by appending a record, the
    /// latest of which wins, rather than by an update in place.
    pub fn appends_checkpoint(&self) -> (r: bool)
        ensures
            r == spec_appends_checkpoint(*self),
    {
        match self {
            StorageBackend::Postgres => false,
            StorageBackend::Clickhouse => true,
        }
    }
}

/// One write to one backend.
#[derive(Debug)]
pub enum StorageAction {
    /// Delete the rows of `schema.table` on `network` from `from_block` up.
    DeleteEvents {
        schema: String,
        table: String,
        network: String,
        from_block: u64,
        synchronous: bool,
    },
    /// Set the checkpoint of `event_name` in `schema` on `network` to `block`.
    RewindCheckpoint {
        schema: String,
        event_name: String,
        network: String,
        block: u64,
        append: bool,
    },
}

/// A write and the backend it goes to.
#[derive(Debug)]
pub struct StorageOp {
    pub backend: StorageBackend,
    pub action: StorageAction,
}

/// The indexing target of a recovery, with its names already derived, and
/// the backends that it has configured.
#[derive(Debug)]
pub struct RecoveryTarget {
    pub network: String,
    pub schema: String,
    pub event_table: String,
    pub event_name: String,
    pub postgres: bool,
    pub clickhouse: bool,
}

/// What a recovery target is, as values.
pub struct RecoveryScope {
    pub network: Seq<char>,
    pub schema: Seq<char>,
    pub event_table: Seq<char>,
    pub event_name: Seq<char>,
    pub postgres: bool,
    pub clickhouse: bool,
}

impl View for RecoveryTarget {
    type V = RecoveryScope;

    open spec fn view(&self) -> RecoveryScope {
        RecoveryScope {
            network: self.network@,
            schema: self.schema@,
            event_table: self.event_table@,
            event_name: self.event_name@,
            postgres: self.postgres,
            clickhouse: self.clickhouse,
        }
    }
}

/// Whether `op` deletes the rows of the scope's table on its network from
/// `from` up, on backend `b`.
pub open spec fn is_delete(op: StorageOp, b: StorageBackend, t: RecoveryScope, from: u64) -> bool {
    op.backend == b && match op.action {
        StorageAction::DeleteEvents { schema, table, network, from_block, synchronous } => {
            &&& schema@ == t.schema
            &&& table@ == t.event_table
            &&& network@ == t.network
            &&& from_block == from
            &&& synchronous == spec_synchronous_delete(b)
        },
        _ => false,
    }
}

/// Whether `op` sets the scope's checkpoint on its network to `to`, on
/// backend `b`.
pub open spec fn is_rewind(op: StorageOp, b: StorageBackend, t: RecoveryScope, to: u64) -> bool {
    op.backend == b && match op.action {
        StorageAction::RewindCheckpoint { schema, event_name, network, block, append } => {
            &&& schema@ == t.schema
            &&& event_name@ == t.event_name
            &&& network@ == t.network
            &&& block == to
            &&& append == spec_appends_checkpoint(b)
        },
        _ => false,
    }
}

/// Whether the two operations at `at` delete, then rewind, on backend `b`.
pub open spec fn backend_steps(
    ops: Seq<StorageOp>,
    at: int,
    b: StorageBackend,
    t: RecoveryScope,
    fork_block: u64,
) -> bool {
    &&& is_delete(ops[at], b, t, fork_block)
    &&& is_rewind(ops[at + 1], b, t, sat_sub(fork_block, 1))
}

/// The operations of a recovery to `fork_block`: for each configured backend,
/// the SQL one first, a delete and then a rewind to the block before.
pub open spec fn is_recovery_plan(ops: Seq<StorageOp>, t: RecoveryScope, fork_block: u64) -> bool {
    let first = if t.postgres {
        2int
    } else {
        0int
    };
    let second = if t.clickhouse {
        2int
    } else {
        0int
    };
    &&& ops.len() == first + second
    &&& t.postgres ==> backend_steps(ops, 0, StorageBackend::Postgres, t, fork_block)
    &&& t.clickhouse ==> backend_steps(ops, first, StorageBackend::Clickhouse, t, fork_block)
}

fn delete_op(b: StorageBackend, t: &RecoveryTarget, fork_block: u64) -> (r: StorageOp)
    ensures
        is_delete(r, b, t@, fork_block),
{
    StorageOp {
        backend: b,
        action: StorageAction::DeleteEvents {
            schema: t.schema.clone(),
            table: t.event_table.clone(),
            network: t.network.clone(),
            from_block: fork_block,
            synchronous: b.supports_synchronous_delete(),
        },
    }
}

fn rewind_op(b: StorageBackend, t: &RecoveryTarget, block: u64) -> (r: StorageOp)
    ensures
        is_rewind(r, b, t@, block),
{
    StorageOp {
        backend: b,
        action: StorageAction::RewindCheckpoint {
            schema: t.schema.clone(),
            event_name: t.event_name.clone(),
            network: t.network.clone(),
            block,
            append: b.appends_checkpoint(),
        },
    }
}

/// The operations that recover `target` from a reorganisation: on each
/// configured backend, SQL first, delete the rows of the event's table on
/// the target's network from the fork block up, then set the checkpoint to
/// the block before the fork. An absent backend is left alone.
pub fn handle_reorg_recovery(target: &RecoveryTarget, reorg: &ReorgInfo) -> (r: Vec<StorageOp>)
    ensures
        is_recovery_plan(r@, target@, reorg.fork_block),
        forall|i: int|
            0 <= i < r@.len() ==> (r@[i].backend is Postgres ==> target.postgres) && (
            r@[i].backend is Clickhouse ==> target.clickhouse),
{
    let fork_block = reorg.fork_block;
    let rewind_block = fork_block.saturating_sub(1);
    let mut ops: Vec<StorageOp> = Vec::new();
    if target.postgres {
        ops.push(delete_op(StorageBackend::Postgres, target, fork_block));
        ops.push(rewind_op(StorageBackend::Postgres, target, rewind_block));
    }
    if target.clickhouse {
        ops.push(delete_op(StorageBackend::Clickhouse, target, fork_block));
        ops.push(rewind_op(StorageBackend::Clickhouse, target, rewind_block));
    }
    ops
}

/// The scope of the native-transfer stream: one SQL backend at most, and a
/// fixed table and checkpoint identity.
pub open spec fn native_transfer_scope(postgres: bool, schema: Seq<char>, network: Seq<char>) -> RecoveryScope {
    RecoveryScope {
        network,
        schema,
        event_table: NATIVE_TRANSFER_EVENT@,
        event_name: NATIVE_TRANSFER_EVENT@,
        postgres,
        clickhouse: false,
    }
}

/// The operations that recover the native-transfer stream of an indexer,
/// whose schema is `schema`, from a reorganisation at `fork_block`: where the
/// SQL backend is configured, delete the `native_transfer` rows on `network`
/// from the fork block up and set its checkpoint to the block before;
/// otherwise nothing.
pub fn handle_native_transfer_reorg_recovery(
    postgres: bool,
    schema: &str,
    network: &str,
    fork_block: u64,
) -> (r: Vec<StorageOp>)
    ensures
        is_recovery_plan(r@, native_transfer_scope(postgres, schema@, network@), fork_block),
        forall|i: int| 0 <= i < r@.len() ==> r@[i].backend is Postgres,
{
    let target = RecoveryTarget {
        network: network.to_owned(),
        schema: schema.to_owned(),
        event_table: NATIVE_TRANSFER_EVENT.to_owned(),
        event_name: NATIVE_TRANSFER_EVENT.to_owned(),
        postgres,
        clickhouse: false,
    };
    let reorg = ReorgInfo { fork_block, depth: 0 };
    handle_reorg_recovery(&target, &reorg)
}

/// The progress of running a recovery plan: on which backends a delete has
/// failed, so that their checkpoint is not rewound past rows still there.
#[derive(Clone, Copy, Debug, PartialEq, Eq, Structural)]
pub struct RecoveryProgress {
    pub postgres_delete_failed: bool,
    pub clickhouse_delete_failed: bool,
}

/// Whether a delete has failed on backend `b`.
pub open spec fn delete_failed_on(p: RecoveryProgress, b: StorageBackend) -> bool {
    match b {
        StorageBackend::Postgres => p.postgres_delete_failed,
        StorageBackend::Clickhouse => p.clickhouse_delete_failed,
    }
}

impl RecoveryProgress {
    /// No operation has run yet.
    pub fn new() -> (r: RecoveryProgress)
        ensures
            !r.postgres_delete_failed,
            !r.clickhouse_delete_failed,
    {
        RecoveryProgress { postgres_delete_failed: false, clickhouse_delete_failed: false }
    }

    /// Whether `op` is to run: every delete is, and a rewind only where the
    /// delete on its backend has not failed.
    pub fn should_run(&self, op: &StorageOp) -> (r: bool)
        ensures
            r == !(op.action is RewindCheckpoint && delete_failed_on(*self, op.backend)),
    {
        match op.action {
            StorageAction::DeleteEvents { .. } => true,
            StorageAction::RewindCheckpoint { .. } => match op.backend {
                StorageBackend::Postgres => !self.postgres_delete_failed,
                StorageBackend::Clickhouse => !self.clickhouse_delete_failed,
            },
        }
    }

    /// Records the outcome of running `op`: a failed delete marks its
    /// backend; nothing else changes the progress.
    pub fn record(&mut self, op: &StorageOp, succeeded: bool)
        ensures
            forall|b: StorageBackend|
                delete_failed_on(*final(self), b) == (delete_failed_on(*old(self), b) || (
                op.action is DeleteEvents && !succeeded && op.backend == b)),
    {
        if !succeeded {
            if let StorageAction::DeleteEvents { .. } = op.action {
                match op.backend {
                    StorageBackend::Postgres => self.postgres_delete_failed = true,
                    StorageBackend::Clickhouse => self.clickhouse_delete_failed = true,
                }
            }
        }
    }
}

} // verus!
