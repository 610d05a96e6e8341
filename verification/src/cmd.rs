//! The closed set of catalog mutations, and the log entry that replicates one.

use vstd::prelude::*;

use crate::assoc::al_distinct;
use crate::catalog::Node;
use crate::catalog::NodeG;
use crate::catalog::TableMeta;
use crate::catalog::TableMetaG;
use crate::catalog::UpsertTableOptionReq;
use crate::catalog::spec_option_writes;
use crate::dup::Dup;
use crate::match_seq::MatchSeq;

verus! {

/// A catalog mutation. Applying one is deterministic given the current state,
/// and its result reports whether it was a no-op due to pre-existing or absent
/// state.
pub enum Cmd {
    /// Register a node in the node registry; a no-op when the id is taken.
    AddNode { node_id: u64, node: Node },
    /// Create a database; a no-op reporting the existing one when the name is taken.
    CreateDatabase { name: String, engine: String },
    /// Drop a database; a no-op when the name is absent.
    DropDatabase { name: String },
    /// Create a table in a database; a no-op reporting the existing one when
    /// the name is taken.
    CreateTable { db_name: String, table_name: String, table_meta: TableMeta },
    /// Drop a table; a no-op when the name is absent.
    DropTable { db_name: String, table_name: String },
    /// Merge options into a table's meta, only where the table's current seq
    /// satisfies the precondition.
    UpsertTableOptions(UpsertTableOptionReq),
}

/// The mathematical image of a `Cmd`.
pub ghost enum CmdG {
    AddNode { node_id: u64, node: NodeG },
    CreateDatabase { name: Seq<char>, engine: Seq<char> },
    DropDatabase { name: Seq<char> },
    CreateTable { db_name: Seq<char>, table_name: Seq<char>, table_meta: TableMetaG },
    DropTable { db_name: Seq<char>, table_name: Seq<char> },
    UpsertTableOptions {
        table_id: u64,
        seq: MatchSeq,
        options: Seq<(Seq<char>, Option<Seq<char>>)>,
    },
}

impl View for Cmd {
    type V = CmdG;

    open spec fn view(&self) -> CmdG {
        match self {
            Cmd::AddNode { node_id, node } => CmdG::AddNode { node_id: *node_id, node: node@ },
            Cmd::CreateDatabase { name, engine } => CmdG::CreateDatabase {
                name: name@,
                engine: engine@,
            },
            Cmd::DropDatabase { name } => CmdG::DropDatabase { name: name@ },
            Cmd::CreateTable { db_name, table_name, table_meta } => CmdG::CreateTable {
                db_name: db_name@,
                table_name: table_name@,
                table_meta: table_meta@,
            },
            Cmd::DropTable { db_name, table_name } => CmdG::DropTable {
                db_name: db_name@,
                table_name: table_name@,
            },
            Cmd::UpsertTableOptions(req) => CmdG::UpsertTableOptions {
                table_id: req.table_id,
                seq: req.seq,
                options: spec_option_writes(req.options@),
            },
        }
    }
}

/// The well-formedness a command carries with it: option keys of a table meta
/// are pairwise distinct.
pub open spec fn cmd_wf(c: CmdG) -> bool {
    match c {
        CmdG::CreateTable { table_meta, .. } => al_distinct(table_meta.options),
        _ => true,
    }
}

impl Dup for Cmd {
    fn dup(&self) -> (r: Self)
        ensures
            r@ == self@,
    {
        match self {
            Cmd::AddNode { node_id, node } => Cmd::AddNode { node_id: *node_id, node: node.dup() },
            Cmd::CreateDatabase { name, engine } => Cmd::CreateDatabase {
                name: name.dup(),
                engine: engine.dup(),
            },
            Cmd::DropDatabase { name } => Cmd::DropDatabase { name: name.dup() },
            Cmd::CreateTable { db_name, table_name, table_meta } => Cmd::CreateTable {
                db_name: db_name.dup(),
                table_name: table_name.dup(),
                table_meta: table_meta.dup(),
            },
            Cmd::DropTable { db_name, table_name } => Cmd::DropTable {
                db_name: db_name.dup(),
                table_name: table_name.dup(),
            },
            Cmd::UpsertTableOptions(req) => Cmd::UpsertTableOptions(
                UpsertTableOptionReq {
                    table_id: req.table_id,
                    seq: req.seq,
                    options: req.dup_options(),
                },
            ),
        }
    }
}

/// A client-chosen id that lets a retried write be recognized; the core
/// tolerates its absence.
#[derive(Debug, PartialEq, Eq)]
pub struct RaftTxId {
    pub client: String,
    pub serial: u64,
}

impl View for RaftTxId {
    type V = (Seq<char>, u64);

    open spec fn view(&self) -> (Seq<char>, u64) {
        (self.client@, self.serial)
    }
}

/// The unit committed to the replicated log.
pub struct LogEntry {
    pub txid: Option<RaftTxId>,
    pub cmd: Cmd,
}

/// The mathematical image of a `LogEntry`.
#[verifier::ext_equal]
pub ghost struct LogEntryG {
    pub txid: Option<(Seq<char>, u64)>,
    pub cmd: CmdG,
}

impl View for LogEntry {
    type V = LogEntryG;

    open spec fn view(&self) -> LogEntryG {
        LogEntryG {
            txid: match self.txid {
                Option::None => None,
                Option::Some(t) => Some(t@),
            },
            cmd: self.cmd@,
        }
    }
}

impl Dup for LogEntry {
    fn dup(&self) -> (r: Self)
        ensures
            r@ == self@,
    {
        let txid = match &self.txid {
            Option::None => None,
            Option::Some(t) => Some(RaftTxId { client: t.client.dup(), serial: t.serial }),
        };
        let r = LogEntry { txid, cmd: self.cmd.dup() };
        proof {
            assert(r@ =~= self@);
        }
        r
    }
}

} // verus!
