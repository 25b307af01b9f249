//! The statement text that each storage operation is sent as.
use vstd::prelude::*;

use vstd::string::StringExecFns;

use crate::recovery::{StorageAction, StorageBackend, StorageOp};

verus! {

/// The decimal digit of `d`, below ten.
pub open spec fn digit_char(d: nat) -> char {
    if d == 0 {
        '0'
    } else if d == 1 {
        '1'
    } else if d == 2 {
        '2'
    } else if d == 3 {
        '3'
    } else if d == 4 {
        '4'
    } else if d == 5 {
        '5'
    } else if d == 6 {
        '6'
    } else if d == 7 {
        '7'
    } else if d == 8 {
        '8'
    } else {
        '9'
    }
}

/// The decimal text of `n`, with no leading zero.
pub open spec fn decimal(n: nat) -> Seq<char>
    decreases n,
{
    if n < 10 {
        seq![digit_char(n)]
    } else {
        decimal(n / 10) + seq![digit_char(n % 10)]
    }
}

/// The statement text of `op`; `checkpoint_table` names the internal table
/// of the event's checkpoints on the op's backend.
pub open spec fn statement_text(op: StorageOp, checkpoint_table: Seq<char>) -> Seq<char> {
    match op.action {
        StorageAction::DeleteEvents { schema, table, network, from_block, synchronous } => {
            let head = match op.backend {
                StorageBackend::Postgres => "DELETE FROM "@ + schema@ + "."@ + table@ + " WHERE"@,
                StorageBackend::Clickhouse => "ALTER TABLE "@ + schema@ + "."@ + table@
                    + " DELETE WHERE"@,
            };
            let body = head + " block_number >= "@ + decimal(from_block as nat)
                + " AND network = '"@ + network@ + "'"@;
            if synchronous {
                body + " SETTINGS mutations_sync = 1"@
            } else {
                body
            }
        },
        StorageAction::RewindCheckpoint { network, block, append, .. } => if append {
            "INSERT INTO rindexer_internal."@ + checkpoint_table
                + " (network, last_synced_block) VALUES ('"@ + network@ + "', "@ + decimal(
                block as nat,
            ) + ")"@
        } else {
            "UPDATE rindexer_internal."@ + checkpoint_table + " SET last_synced_block = "@
                + decimal(block as nat) + " WHERE network = '"@ + network@ + "'"@
        },
    }
}

fn digit_str(d: u64) -> (r: &'static str)
    requires
        d < 10,
    ensures
        r@ == seq![digit_char(d as nat)],
{
    if d == 0 {
        proof {
            reveal_strlit("0");
        }
        "0"
    } else if d == 1 {
        proof {
            reveal_strlit("1");
        }
        "1"
    } else if d == 2 {
        proof {
            reveal_strlit("2");
        }
        "2"
    } else if d == 3 {
        proof {
            reveal_strlit("3");
        }
        "3"
    } else if d == 4 {
        proof {
            reveal_strlit("4");
        }
        "4"
    } else if d == 5 {
        proof {
            reveal_strlit("5");
        }
        "5"
    } else if d == 6 {
        proof {
            reveal_strlit("6");
        }
        "6"
    } else if d == 7 {
        proof {
            reveal_strlit("7");
        }
        "7"
    } else if d == 8 {
        proof {
            reveal_strlit("8");
        }
        "8"
    } else {
        proof {
            reveal_strlit("9");
        }
        "9"
    }
}

/// Appends the decimal text of `n` to `s`.
pub fn push_decimal(s: &mut String, n: u64)
    ensures
        final(s)@ == old(s)@ + decimal(n as nat),
    decreases n,
{
    if n >= 10 {
        push_decimal(s, n / 10);
    }
    s.append(digit_str(n % 10));
    assert(s@ =~= old(s)@ + decimal(n as nat));
}

/// The statement text of `op`: on the SQL backend `DELETE FROM` the event
/// table, on the columnar one an `ALTER TABLE ... DELETE` mutation, in both
/// cases of the rows on the op's network from the fork block up, made
/// synchronous where the op asks; a rewind is an `UPDATE` of the checkpoint
/// table `rindexer_internal.<checkpoint_table>`, or an `INSERT` of a new
/// record where the backend appends checkpoints.
pub fn render_statement(op: &StorageOp, checkpoint_table: &str) -> (r: String)
    ensures
        r@ == statement_text(*op, checkpoint_table@),
{
    match &op.action {
        StorageAction::DeleteEvents { schema, table, network, from_block, synchronous } => {
            let mut s = match op.backend {
                StorageBackend::Postgres => "DELETE FROM ".to_owned(),
                StorageBackend::Clickhouse => "ALTER TABLE ".to_owned(),
            };
            s.append(schema.as_str());
            s.append(".");
            s.append(table.as_str());
            match op.backend {
                StorageBackend::Postgres => s.append(" WHERE"),
                StorageBackend::Clickhouse => s.append(" DELETE WHERE"),
            }
            s.append(" block_number >= ");
            push_decimal(&mut s, *from_block);
            s.append(" AND network = '");
            s.append(network.as_str());
            s.append("'");
            if *synchronous {
                s.append(" SETTINGS mutations_sync = 1");
            }
            s
        },
        StorageAction::RewindCheckpoint { network, block, append, .. } => {
            if *append {
                let mut s = "INSERT INTO rindexer_internal.".to_owned();
                s.append(checkpoint_table);
                s.append(" (network, last_synced_block) VALUES ('");
                s.append(network.as_str());
                s.append("', ");
                push_decimal(&mut s, *block);
                s.append(")");
                s
            } else {
                let mut s = "UPDATE rindexer_internal.".to_owned();
                s.append(checkpoint_table);
                s.append(" SET last_synced_block = ");
                push_decimal(&mut s, *block);
                s.append(" WHERE network = '");
                s.append(network.as_str());
                s.append("'");
                s
            }
        },
    }
}

} // verus!
