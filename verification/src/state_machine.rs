//! The deterministic catalog state machine: the key-spaces it owns, the
//! mathematical transition each committed command makes, and the executable
//! application that refines it. Every replica that applies the same committed
//! log prefix to the same starting state reaches the identical state — the
//! transition is a function of state and command alone.

use vstd::prelude::*;

use crate::alist::AList;
use crate::assoc::al_distinct;
use crate::assoc::al_get;
use crate::assoc::al_remove;
use crate::assoc::al_set;
use crate::assoc::lemma_al_remove_distinct;
use crate::assoc::lemma_al_remove_frame;
use crate::assoc::lemma_al_set_distinct;
use crate::assoc::lemma_al_set_frame;
use crate::catalog::spec_table_desc;
use crate::catalog::DatabaseInfo;
use crate::catalog::DatabaseInfoG;
use crate::catalog::DatabaseMeta;
use crate::catalog::DatabaseMetaG;
use crate::catalog::GetDatabaseReq;
use crate::catalog::GetTableReq;
use crate::catalog::ListTableReq;
use crate::catalog::TableIdent;
use crate::catalog::TableInfo;
use crate::catalog::TableInfoG;
use crate::catalog::Node;
use crate::catalog::NodeG;
use crate::catalog::TableLookupKey;
use crate::catalog::TableMeta;
use crate::catalog::TableMetaG;
use crate::change::AppliedState;
use crate::change::AppliedStateG;
use crate::change::Change;
use crate::change::ChangeG;
use crate::cmd::Cmd;
use crate::cmd::LogEntry;
use crate::cmd::CmdG;
use crate::dup::Dup;
use crate::errors::ErrorCode;
use crate::errors::ErrorCodeG;
use crate::match_seq::spec_matches;
use crate::match_seq::MatchSeq;
use crate::seqv::SeqV;
use crate::seqv::SeqVG;

verus! {

/// The key of the id generator for databases in the Sequences key-space.
pub open spec fn db_id_gen_key() -> Seq<char> {
    "database_id"@
}

/// The key of the id generator for tables in the Sequences key-space.
pub open spec fn table_id_gen_key() -> Seq<char> {
    "table_id"@
}

/// The mathematical image of the whole store: one sequence of pairs per
/// key-space, plus the store-wide seq counter. Order is part of the state, so
/// equal images mean byte-identical replicas.
#[verifier::ext_equal]
pub ghost struct SmG {
    /// The last sequence number handed out; stamped values carry `seq + 1`, `seq + 2`, ...
    pub seq: u64,
    /// Id generators: generator name to the last id handed out.
    pub sequences: Seq<(Seq<char>, u64)>,
    /// Database name to database id.
    pub databases: Seq<(Seq<char>, SeqVG<u64>)>,
    /// Database id to database meta.
    pub database_metas: Seq<(u64, SeqVG<DatabaseMetaG>)>,
    /// (database id, table name) to table id.
    pub table_lookups: Seq<((u64, Seq<char>), SeqVG<u64>)>,
    /// Table id to table meta.
    pub tables: Seq<(u64, SeqVG<TableMetaG>)>,
    /// Node id to node.
    pub nodes: Seq<(u64, SeqVG<NodeG>)>,
}

/// Every stamped entry of the key-space carries a seq in `1 ..= bound`.
pub open spec fn seqs_bounded<K, D>(s: Seq<(K, SeqVG<D>)>, bound: u64) -> bool {
    forall|i: int| 0 <= i < s.len() ==> 1 <= #[trigger] s[i].1.seq <= bound
}

/// Every generator value is at most `bound`.
pub open spec fn gens_bounded(s: Seq<(Seq<char>, u64)>, bound: u64) -> bool {
    forall|i: int| 0 <= i < s.len() ==> #[trigger] s[i].1 <= bound
}

/// Well-formedness of the store image: distinct keys in every key-space, and
/// every stamped seq and generator value within the store counter — which is
/// what makes the counter fresh for the next write.
pub open spec fn sm_wf(s: SmG) -> bool {
    &&& al_distinct(s.sequences)
    &&& al_distinct(s.databases)
    &&& al_distinct(s.database_metas)
    &&& al_distinct(s.table_lookups)
    &&& al_distinct(s.tables)
    &&& al_distinct(s.nodes)
    &&& gens_bounded(s.sequences, s.seq)
    &&& seqs_bounded(s.databases, s.seq)
    &&& seqs_bounded(s.database_metas, s.seq)
    &&& seqs_bounded(s.table_lookups, s.seq)
    &&& seqs_bounded(s.tables, s.seq)
    &&& seqs_bounded(s.nodes, s.seq)
}

/// The id a generator hands out next: one past the last.
pub open spec fn next_id(s: Seq<(Seq<char>, u64)>, key: Seq<char>) -> u64 {
    (match al_get(s, key) {
        Option::None => 0u64,
        Option::Some(v) => v,
    } + 1) as u64
}

/// One option write merged into a table's options.
pub open spec fn apply_option_write(
    opts: Seq<(Seq<char>, Seq<char>)>,
    w: (Seq<char>, Option<Seq<char>>),
) -> Seq<(Seq<char>, Seq<char>)> {
    match w.1 {
        Option::Some(v) => al_set(opts, w.0, v),
        Option::None => al_remove(opts, w.0),
    }
}

/// All option writes merged in order.
pub open spec fn apply_option_writes(
    opts: Seq<(Seq<char>, Seq<char>)>,
    ws: Seq<(Seq<char>, Option<Seq<char>>)>,
) -> Seq<(Seq<char>, Seq<char>)>
    decreases ws.len(),
{
    if ws.len() == 0 {
        opts
    } else {
        apply_option_write(apply_option_writes(opts, ws.drop_last()), ws.last())
    }
}

/// Merging option writes keeps the option keys distinct.
pub proof fn lemma_option_writes_distinct(
    opts: Seq<(Seq<char>, Seq<char>)>,
    ws: Seq<(Seq<char>, Option<Seq<char>>)>,
)
    requires
        al_distinct(opts),
    ensures
        al_distinct(apply_option_writes(opts, ws)),
    decreases ws.len(),
{
    if ws.len() != 0 {
        lemma_option_writes_distinct(opts, ws.drop_last());
        let m = apply_option_writes(opts, ws.drop_last());
        match ws.last().1 {
            Option::Some(v) => lemma_al_set_distinct(m, ws.last().0, v),
            Option::None => lemma_al_remove_distinct(m, ws.last().0),
        }
    }
}

/// What `AddNode` does: register the node unless the id is taken, in which
/// case report the present entry untouched.
pub open spec fn step_add_node(s: SmG, node_id: u64, node: NodeG) -> (SmG, ChangeG<NodeG>) {
    match al_get(s.nodes, node_id) {
        Option::Some(p) => (s, ChangeG { ident: Some(node_id), prev: Some(p), result: Some(p) }),
        Option::None => {
            let sv = SeqVG { seq: (s.seq + 1) as u64, data: node };
            (
                SmG {
                    seq: (s.seq + 1) as u64,
                    sequences: s.sequences,
                    databases: s.databases,
                    database_metas: s.database_metas,
                    table_lookups: s.table_lookups,
                    tables: s.tables,
                    nodes: al_set(s.nodes, node_id, sv),
                },
                ChangeG { ident: Some(node_id), prev: None, result: Some(sv) },
            )
        },
    }
}

/// What `CreateDatabase` does: allocate the next database id and write the
/// name and the meta, unless the name is taken, in which case report the
/// present database untouched.
pub open spec fn step_create_database(s: SmG, name: Seq<char>, engine: Seq<char>) -> (
    SmG,
    ChangeG<DatabaseMetaG>,
) {
    match al_get(s.databases, name) {
        Option::Some(idv) => {
            let m = al_get(s.database_metas, idv.data);
            (s, ChangeG { ident: Some(idv.data), prev: m, result: m })
        },
        Option::None => {
            let id = next_id(s.sequences, db_id_gen_key());
            let meta = DatabaseMetaG { engine };
            let sv = SeqVG { seq: (s.seq + 2) as u64, data: meta };
            (
                SmG {
                    seq: (s.seq + 2) as u64,
                    sequences: al_set(s.sequences, db_id_gen_key(), id),
                    databases: al_set(
                        s.databases,
                        name,
                        SeqVG { seq: (s.seq + 1) as u64, data: id },
                    ),
                    database_metas: al_set(s.database_metas, id, sv),
                    table_lookups: s.table_lookups,
                    tables: s.tables,
                    nodes: s.nodes,
                },
                ChangeG { ident: Some(id), prev: None, result: Some(sv) },
            )
        },
    }
}

/// What `DropDatabase` does: remove the name and the meta, or report a no-op
/// when the name is absent.
pub open spec fn step_drop_database(s: SmG, name: Seq<char>) -> (SmG, ChangeG<DatabaseMetaG>) {
    match al_get(s.databases, name) {
        Option::None => (s, ChangeG { ident: None, prev: None, result: None }),
        Option::Some(idv) => {
            let m = al_get(s.database_metas, idv.data);
            (
                SmG {
                    seq: s.seq,
                    sequences: s.sequences,
                    databases: al_remove(s.databases, name),
                    database_metas: al_remove(s.database_metas, idv.data),
                    table_lookups: s.table_lookups,
                    tables: s.tables,
                    nodes: s.nodes,
                },
                ChangeG { ident: Some(idv.data), prev: m, result: None },
            )
        },
    }
}

/// What `CreateTable` does: in the named database, allocate the next table id
/// and write the lookup entry and the meta, unless the table name is taken, in
/// which case report the present table untouched. Fails when the database is
/// unknown.
pub open spec fn step_create_table(
    s: SmG,
    db_name: Seq<char>,
    table_name: Seq<char>,
    meta: TableMetaG,
) -> (SmG, Result<ChangeG<TableMetaG>, ErrorCodeG>) {
    match al_get(s.databases, db_name) {
        Option::None => (s, Err(ErrorCodeG::UnknownDatabase(db_name))),
        Option::Some(idv) => {
            let key = (idv.data, table_name);
            match al_get(s.table_lookups, key) {
                Option::Some(tv) => {
                    let m = al_get(s.tables, tv.data);
                    (s, Ok(ChangeG { ident: Some(tv.data), prev: m, result: m }))
                },
                Option::None => {
                    let tid = next_id(s.sequences, table_id_gen_key());
                    let sv = SeqVG { seq: (s.seq + 2) as u64, data: meta };
                    (
                        SmG {
                            seq: (s.seq + 2) as u64,
                            sequences: al_set(s.sequences, table_id_gen_key(), tid),
                            databases: s.databases,
                            database_metas: s.database_metas,
                            table_lookups: al_set(
                                s.table_lookups,
                                key,
                                SeqVG { seq: (s.seq + 1) as u64, data: tid },
                            ),
                            tables: al_set(s.tables, tid, sv),
                            nodes: s.nodes,
                        },
                        Ok(ChangeG { ident: Some(tid), prev: None, result: Some(sv) }),
                    )
                },
            }
        },
    }
}

/// What `DropTable` does: remove the lookup entry and the meta, or report a
/// no-op when the table name is absent. Fails when the database is unknown.
pub open spec fn step_drop_table(s: SmG, db_name: Seq<char>, table_name: Seq<char>) -> (
    SmG,
    Result<ChangeG<TableMetaG>, ErrorCodeG>,
) {
    match al_get(s.databases, db_name) {
        Option::None => (s, Err(ErrorCodeG::UnknownDatabase(db_name))),
        Option::Some(idv) => {
            let key = (idv.data, table_name);
            match al_get(s.table_lookups, key) {
                Option::None => (s, Ok(ChangeG { ident: None, prev: None, result: None })),
                Option::Some(tv) => {
                    let m = al_get(s.tables, tv.data);
                    (
                        SmG {
                            seq: s.seq,
                            sequences: s.sequences,
                            databases: s.databases,
                            database_metas: s.database_metas,
                            table_lookups: al_remove(s.table_lookups, key),
                            tables: al_remove(s.tables, tv.data),
                            nodes: s.nodes,
                        },
                        Ok(ChangeG { ident: Some(tv.data), prev: m, result: None }),
                    )
                },
            }
        },
    }
}

/// What `UpsertTableOptions` does: where the table's current seq satisfies the
/// precondition, merge the option writes and stamp a new seq; where it does
/// not, report the present meta untouched. Fails when the table id is unknown.
pub open spec fn step_upsert_table_options(
    s: SmG,
    table_id: u64,
    seq: MatchSeq,
    options: Seq<(Seq<char>, Option<Seq<char>>)>,
) -> (SmG, Result<ChangeG<TableMetaG>, ErrorCodeG>) {
    match al_get(s.tables, table_id) {
        Option::None => (s, Err(ErrorCodeG::UnknownTableId(table_id))),
        Option::Some(tv) => {
            if spec_matches(seq, tv.seq) {
                let merged = TableMetaG {
                    schema: tv.data.schema,
                    engine: tv.data.engine,
                    options: apply_option_writes(tv.data.options, options),
                };
                let sv = SeqVG { seq: (s.seq + 1) as u64, data: merged };
                (
                    SmG {
                        seq: (s.seq + 1) as u64,
                        sequences: s.sequences,
                        databases: s.databases,
                        database_metas: s.database_metas,
                        table_lookups: s.table_lookups,
                        tables: al_set(s.tables, table_id, sv),
                        nodes: s.nodes,
                    },
                    Ok(ChangeG { ident: Some(table_id), prev: Some(tv), result: Some(sv) }),
                )
            } else {
                (s, Ok(ChangeG { ident: Some(table_id), prev: Some(tv), result: Some(tv) }))
            }
        },
    }
}

/// The transition of the state machine: what one committed command does to the
/// store image, and what it reports. A function of state and command alone.
pub open spec fn sm_apply(s: SmG, cmd: CmdG) -> (SmG, Result<AppliedStateG, ErrorCodeG>) {
    match cmd {
        CmdG::AddNode { node_id, node } => {
            let (s2, ch) = step_add_node(s, node_id, node);
            (s2, Ok(AppliedStateG::Node(ch)))
        },
        CmdG::CreateDatabase { name, engine } => {
            let (s2, ch) = step_create_database(s, name, engine);
            (s2, Ok(AppliedStateG::DatabaseMeta(ch)))
        },
        CmdG::DropDatabase { name } => {
            let (s2, ch) = step_drop_database(s, name);
            (s2, Ok(AppliedStateG::DatabaseMeta(ch)))
        },
        CmdG::CreateTable { db_name, table_name, table_meta } => {
            let (s2, r) = step_create_table(s, db_name, table_name, table_meta);
            (
                s2,
                match r {
                    Ok(ch) => Ok(AppliedStateG::TableMeta(ch)),
                    Err(e) => Err(e),
                },
            )
        },
        CmdG::DropTable { db_name, table_name } => {
            let (s2, r) = step_drop_table(s, db_name, table_name);
            (
                s2,
                match r {
                    Ok(ch) => Ok(AppliedStateG::TableMeta(ch)),
                    Err(e) => Err(e),
                },
            )
        },
        CmdG::UpsertTableOptions { table_id, seq, options } => {
            let (s2, r) = step_upsert_table_options(s, table_id, seq, options);
            (
                s2,
                match r {
                    Ok(ch) => Ok(AppliedStateG::TableMeta(ch)),
                    Err(e) => Err(e),
                },
            )
        },
    }
}

/// A whole committed log prefix applied in order.
pub open spec fn sm_apply_log(s: SmG, log: Seq<CmdG>) -> SmG
    decreases log.len(),
{
    if log.len() == 0 {
        s
    } else {
        sm_apply(sm_apply_log(s, log.drop_last()), log.last()).0
    }
}

/// One transition raises the store counter by at most two and never lowers it.
pub proof fn lemma_sm_apply_seq(s: SmG, cmd: CmdG)
    requires
        s.seq <= u64::MAX - 2,
    ensures
        s.seq <= sm_apply(s, cmd).0.seq <= s.seq + 2,
{
}

/// A key-space whose seqs fit one bound also fits any higher bound.
proof fn lemma_seqs_bounded_widen<K, D>(s: Seq<(K, SeqVG<D>)>, b1: u64, b2: u64)
    requires
        seqs_bounded(s, b1),
        b1 <= b2,
    ensures
        seqs_bounded(s, b2),
{
}

/// Writing one freshly stamped entry keeps the key-space inside the raised bound.
proof fn lemma_seqs_bounded_set<K, D>(s: Seq<(K, SeqVG<D>)>, k: K, v: SeqVG<D>, b1: u64, b2: u64)
    requires
        seqs_bounded(s, b1),
        b1 <= b2,
        1 <= v.seq <= b2,
    ensures
        seqs_bounded(al_set(s, k, v), b2),
{
    lemma_al_set_frame(s, k, v);
}

/// Removing an entry keeps the key-space inside the bound.
proof fn lemma_seqs_bounded_remove<K, D>(s: Seq<(K, SeqVG<D>)>, k: K, b: u64)
    requires
        seqs_bounded(s, b),
    ensures
        seqs_bounded(al_remove(s, k), b),
{
    lemma_al_remove_frame(s, k);
}

/// The generator value a key-space holds is inside its bound.
proof fn lemma_gen_bounded(s: Seq<(Seq<char>, u64)>, key: Seq<char>, b: u64)
    requires
        gens_bounded(s, b),
    ensures
        next_id(s, key) <= b + 1,
{
    if al_get(s, key) is Some {
        crate::assoc::lemma_al_get_index(s, key);
        let i = choose|i: int| 0 <= i < s.len() && s[i] == (key, al_get(s, key)->Some_0);
        assert(s[i].1 <= b);
    }
}

/// Every command application preserves well-formedness of the store image.
pub proof fn lemma_sm_apply_wf(s: SmG, cmd: CmdG)
    requires
        sm_wf(s),
        s.seq <= u64::MAX - 2,
    ensures
        sm_wf(sm_apply(s, cmd).0),
{
    let s2 = sm_apply(s, cmd).0;
    lemma_sm_apply_seq(s, cmd);
    lemma_seqs_bounded_widen(s.databases, s.seq, s2.seq);
    lemma_seqs_bounded_widen(s.database_metas, s.seq, s2.seq);
    lemma_seqs_bounded_widen(s.table_lookups, s.seq, s2.seq);
    lemma_seqs_bounded_widen(s.tables, s.seq, s2.seq);
    lemma_seqs_bounded_widen(s.nodes, s.seq, s2.seq);
    match cmd {
        CmdG::AddNode { node_id, node } => {
            if al_get(s.nodes, node_id) is None {
                let sv = SeqVG { seq: (s.seq + 1) as u64, data: node };
                lemma_al_set_distinct(s.nodes, node_id, sv);
                lemma_seqs_bounded_set(s.nodes, node_id, sv, s.seq, s2.seq);
            }
        },
        CmdG::CreateDatabase { name, engine } => {
            if al_get(s.databases, name) is None {
                let id = next_id(s.sequences, db_id_gen_key());
                let meta = DatabaseMetaG { engine };
                let idv = SeqVG { seq: (s.seq + 1) as u64, data: id };
                let sv = SeqVG { seq: (s.seq + 2) as u64, data: meta };
                lemma_gen_bounded(s.sequences, db_id_gen_key(), s.seq);
                lemma_al_set_distinct(s.sequences, db_id_gen_key(), id);
                lemma_al_set_frame(s.sequences, db_id_gen_key(), id);
                lemma_al_set_distinct(s.databases, name, idv);
                lemma_al_set_distinct(s.database_metas, id, sv);
                lemma_seqs_bounded_set(s.databases, name, idv, s.seq, s2.seq);
                lemma_seqs_bounded_set(s.database_metas, id, sv, s.seq, s2.seq);
            }
        },
        CmdG::DropDatabase { name } => {
            if al_get(s.databases, name) is Some {
                let idv = al_get(s.databases, name)->Some_0;
                lemma_al_remove_distinct(s.databases, name);
                lemma_al_remove_distinct(s.database_metas, idv.data);
                lemma_seqs_bounded_remove(s.databases, name, s2.seq);
                lemma_seqs_bounded_remove(s.database_metas, idv.data, s2.seq);
            }
        },
        CmdG::CreateTable { db_name, table_name, table_meta } => {
            if al_get(s.databases, db_name) is Some {
                let idv = al_get(s.databases, db_name)->Some_0;
                let key = (idv.data, table_name);
                if al_get(s.table_lookups, key) is None {
                    let tid = next_id(s.sequences, table_id_gen_key());
                    let lv = SeqVG { seq: (s.seq + 1) as u64, data: tid };
                    let sv = SeqVG { seq: (s.seq + 2) as u64, data: table_meta };
                    lemma_gen_bounded(s.sequences, table_id_gen_key(), s.seq);
                    lemma_al_set_distinct(s.sequences, table_id_gen_key(), tid);
                    lemma_al_set_frame(s.sequences, table_id_gen_key(), tid);
                    lemma_al_set_distinct(s.table_lookups, key, lv);
                    lemma_al_set_distinct(s.tables, tid, sv);
                    lemma_seqs_bounded_set(s.table_lookups, key, lv, s.seq, s2.seq);
                    lemma_seqs_bounded_set(s.tables, tid, sv, s.seq, s2.seq);
                }
            }
        },
        CmdG::DropTable { db_name, table_name } => {
            if al_get(s.databases, db_name) is Some {
                let idv = al_get(s.databases, db_name)->Some_0;
                let key = (idv.data, table_name);
                if al_get(s.table_lookups, key) is Some {
                    let tv = al_get(s.table_lookups, key)->Some_0;
                    lemma_al_remove_distinct(s.table_lookups, key);
                    lemma_al_remove_distinct(s.tables, tv.data);
                    lemma_seqs_bounded_remove(s.table_lookups, key, s2.seq);
                    lemma_seqs_bounded_remove(s.tables, tv.data, s2.seq);
                }
            }
        },
        CmdG::UpsertTableOptions { table_id, seq, options } => {
            if al_get(s.tables, table_id) is Some {
                let tv = al_get(s.tables, table_id)->Some_0;
                if spec_matches(seq, tv.seq) {
                    let merged = TableMetaG {
                        schema: tv.data.schema,
                        engine: tv.data.engine,
                        options: apply_option_writes(tv.data.options, options),
                    };
                    let sv = SeqVG { seq: (s.seq + 1) as u64, data: merged };
                    lemma_al_set_distinct(s.tables, table_id, sv);
                    lemma_seqs_bounded_set(s.tables, table_id, sv, s.seq, s2.seq);
                }
            }
        },
    }
}

/// Replay determinism: the state after a committed log prefix is a function of
/// the starting state and the prefix alone, so two replicas that start equal
/// and apply the same prefix end identical.
pub proof fn lemma_replay_deterministic(a: SmG, b: SmG, log: Seq<CmdG>)
    requires
        a == b,
    ensures
        sm_apply_log(a, log) == sm_apply_log(b, log),
{
}

/// Replaying splits any way one likes: a snapshot of the state after a prefix,
/// followed by the tail of the log, ends exactly where replaying the whole log
/// from the start ends. This is what makes restart from a snapshot plus tail
/// log safe.
pub proof fn lemma_replay_from_snapshot(s: SmG, head: Seq<CmdG>, tail: Seq<CmdG>)
    ensures
        sm_apply_log(s, head + tail) == sm_apply_log(sm_apply_log(s, head), tail),
    decreases tail.len(),
{
    if tail.len() == 0 {
        assert(head + tail =~= head);
    } else {
        lemma_replay_from_snapshot(s, head, tail.drop_last());
        assert((head + tail).drop_last() =~= head + tail.drop_last());
        assert((head + tail).last() == tail.last());
    }
}

/// The store of one metadata node. All catalog key-spaces live in it, it alone
/// mutates them, and it does so only by applying committed commands.
pub struct StateMachine {
    seq: u64,
    sequences: AList<String, u64>,
    databases: AList<String, SeqV<u64>>,
    database_metas: AList<u64, SeqV<DatabaseMeta>>,
    table_lookups: AList<TableLookupKey, SeqV<u64>>,
    tables: AList<u64, SeqV<TableMeta>>,
    nodes: AList<u64, SeqV<Node>>,
}

impl View for StateMachine {
    type V = SmG;

    closed spec fn view(&self) -> SmG {
        SmG {
            seq: self.seq,
            sequences: self.sequences@,
            databases: self.databases@,
            database_metas: self.database_metas@,
            table_lookups: self.table_lookups@,
            tables: self.tables@,
            nodes: self.nodes@,
        }
    }
}

/// The image of a fresh, empty store.
pub open spec fn sm_init() -> SmG {
    SmG {
        seq: 0,
        sequences: Seq::empty(),
        databases: Seq::empty(),
        database_metas: Seq::empty(),
        table_lookups: Seq::empty(),
        tables: Seq::empty(),
        nodes: Seq::empty(),
    }
}

impl StateMachine {
    pub open spec fn wf(&self) -> bool {
        sm_wf(self@)
    }

    pub fn new() -> (r: Self)
        ensures
            r@ == sm_init(),
            r.wf(),
    {
        let r = StateMachine {
            seq: 0,
            sequences: AList::new(),
            databases: AList::new(),
            database_metas: AList::new(),
            table_lookups: AList::new(),
            tables: AList::new(),
            nodes: AList::new(),
        };
        proof {
            assert(r@ =~= sm_init());
        }
        r
    }

    /// The next id of the generator named `key`, persisted in the Sequences
    /// key-space.
    fn incr_gen(&mut self, key: String) -> (id: u64)
        requires
            gens_bounded(old(self)@.sequences, old(self)@.seq),
            old(self)@.seq <= u64::MAX - 2,
        ensures
            id == next_id(old(self)@.sequences, key@),
            final(self)@ == (SmG {
                sequences: al_set(old(self)@.sequences, key@, id),
                ..old(self)@
            }),
    {
        let cur: u64 = match self.sequences.get(&key) {
            Option::Some(v) => {
                proof {
                    crate::assoc::lemma_al_get_index(self@.sequences, key@);
                    let i = choose|i: int|
                        0 <= i < self@.sequences.len() && self@.sequences[i] == (
                            key@,
                            al_get(self@.sequences, key@)->Some_0,
                        );
                    assert(self@.sequences[i].1 <= self@.seq);
                }
                *v
            },
            Option::None => 0,
        };
        let id = cur + 1;
        let _ = self.sequences.set(key, id);
        proof {
            assert(final(self)@ =~= SmG {
                sequences: al_set(old(self)@.sequences, key@, id),
                ..old(self)@
            });
        }
        id
    }

    /// Apply one committed command: the executable form of `sm_apply`, the
    /// store image moving exactly as the transition says.
    pub fn apply_cmd(&mut self, cmd: &Cmd) -> (r: Result<AppliedState, ErrorCode>)
        requires
            old(self).wf(),
            old(self)@.seq <= u64::MAX - 2,
        ensures
            final(self).wf(),
            final(self)@ == sm_apply(old(self)@, cmd@).0,
            r is Ok ==> sm_apply(old(self)@, cmd@).1 == Ok::<AppliedStateG, ErrorCodeG>(r->Ok_0@),
            r is Err ==> sm_apply(old(self)@, cmd@).1 == Err::<AppliedStateG, ErrorCodeG>(
                r->Err_0@,
            ),
    {
        proof {
            lemma_sm_apply_wf(old(self)@, cmd@);
        }
        match cmd {
            Cmd::AddNode { node_id, node } => {
                let found: Option<SeqV<Node>> = match self.nodes.get(node_id) {
                    Option::Some(sv) => Some(sv.dup()),
                    Option::None => None,
                };
                match found {
                    Option::Some(p) => {
                        let result = p.dup();
                        Ok(
                            AppliedState::Node(
                                Change { ident: Some(*node_id), prev: Some(p), result: Some(result) },
                            ),
                        )
                    },
                    Option::None => {
                        let s1 = self.seq + 1;
                        let stored = SeqV { seq: s1, data: node.dup() };
                        let result = stored.dup();
                        let _ = self.nodes.set(*node_id, stored);
                        self.seq = s1;
                        proof {
                            assert(self@ =~= sm_apply(old(self)@, cmd@).0);
                        }
                        Ok(
                            AppliedState::Node(
                                Change { ident: Some(*node_id), prev: None, result: Some(result) },
                            ),
                        )
                    },
                }
            },
            Cmd::CreateDatabase { name, engine } => {
                let found: Option<u64> = match self.databases.get(name) {
                    Option::Some(sv) => Some(sv.data),
                    Option::None => None,
                };
                match found {
                    Option::Some(id) => {
                        let prev: Option<SeqV<DatabaseMeta>> = match self.database_metas.get(&id) {
                            Option::Some(sv) => Some(sv.dup()),
                            Option::None => None,
                        };
                        let result: Option<SeqV<DatabaseMeta>> = match &prev {
                            Option::Some(sv) => Some(sv.dup()),
                            Option::None => None,
                        };
                        Ok(
                            AppliedState::DatabaseMeta(
                                Change { ident: Some(id), prev, result },
                            ),
                        )
                    },
                    Option::None => {
                        let id = self.incr_gen(String::from_str("database_id"));
                        let s1 = self.seq + 1;
                        let s2 = self.seq + 2;
                        let _ = self.databases.set(name.dup(), SeqV { seq: s1, data: id });
                        let stored = SeqV { seq: s2, data: DatabaseMeta { engine: engine.dup() } };
                        let result = stored.dup();
                        let _ = self.database_metas.set(id, stored);
                        self.seq = s2;
                        proof {
                            assert(self@ =~= sm_apply(old(self)@, cmd@).0);
                        }
                        Ok(
                            AppliedState::DatabaseMeta(
                                Change { ident: Some(id), prev: None, result: Some(result) },
                            ),
                        )
                    },
                }
            },
            Cmd::DropDatabase { name } => {
                let found: Option<u64> = match self.databases.get(name) {
                    Option::Some(sv) => Some(sv.data),
                    Option::None => None,
                };
                match found {
                    Option::None => Ok(
                        AppliedState::DatabaseMeta(Change { ident: None, prev: None, result: None }),
                    ),
                    Option::Some(id) => {
                        let _ = self.databases.remove(name);
                        let prev = self.database_metas.remove(&id);
                        proof {
                            assert(self@ =~= sm_apply(old(self)@, cmd@).0);
                        }
                        Ok(
                            AppliedState::DatabaseMeta(
                                Change { ident: Some(id), prev, result: None },
                            ),
                        )
                    },
                }
            },
            Cmd::CreateTable { db_name, table_name, table_meta } => {
                let found_db: Option<u64> = match self.databases.get(db_name) {
                    Option::Some(sv) => Some(sv.data),
                    Option::None => None,
                };
                match found_db {
                    Option::None => Err(ErrorCode::UnknownDatabase(db_name.dup())),
                    Option::Some(db_id) => {
                        let key = TableLookupKey {
                            database_id: db_id,
                            table_name: table_name.dup(),
                        };
                        let found_t: Option<u64> = match self.table_lookups.get(&key) {
                            Option::Some(sv) => Some(sv.data),
                            Option::None => None,
                        };
                        match found_t {
                            Option::Some(tid) => {
                                let prev: Option<SeqV<TableMeta>> = match self.tables.get(&tid) {
                                    Option::Some(sv) => Some(sv.dup()),
                                    Option::None => None,
                                };
                                let result: Option<SeqV<TableMeta>> = match &prev {
                                    Option::Some(sv) => Some(sv.dup()),
                                    Option::None => None,
                                };
                                Ok(
                                    AppliedState::TableMeta(
                                        Change { ident: Some(tid), prev, result },
                                    ),
                                )
                            },
                            Option::None => {
                                let tid = self.incr_gen(String::from_str("table_id"));
                                let s1 = self.seq + 1;
                                let s2 = self.seq + 2;
                                let _ = self.table_lookups.set(key, SeqV { seq: s1, data: tid });
                                let stored = SeqV { seq: s2, data: table_meta.dup() };
                                let result = stored.dup();
                                let _ = self.tables.set(tid, stored);
                                self.seq = s2;
                                proof {
                                    assert(self@ =~= sm_apply(old(self)@, cmd@).0);
                                }
                                Ok(
                                    AppliedState::TableMeta(
                                        Change { ident: Some(tid), prev: None, result: Some(result) },
                                    ),
                                )
                            },
                        }
                    },
                }
            },
            Cmd::DropTable { db_name, table_name } => {
                let found_db: Option<u64> = match self.databases.get(db_name) {
                    Option::Some(sv) => Some(sv.data),
                    Option::None => None,
                };
                match found_db {
                    Option::None => Err(ErrorCode::UnknownDatabase(db_name.dup())),
                    Option::Some(db_id) => {
                        let key = TableLookupKey {
                            database_id: db_id,
                            table_name: table_name.dup(),
                        };
                        let found_t: Option<u64> = match self.table_lookups.get(&key) {
                            Option::Some(sv) => Some(sv.data),
                            Option::None => None,
                        };
                        match found_t {
                            Option::None => Ok(
                                AppliedState::TableMeta(
                                    Change { ident: None, prev: None, result: None },
                                ),
                            ),
                            Option::Some(tid) => {
                                let _ = self.table_lookups.remove(&key);
                                let prev = self.tables.remove(&tid);
                                proof {
                                    assert(self@ =~= sm_apply(old(self)@, cmd@).0);
                                }
                                Ok(
                                    AppliedState::TableMeta(
                                        Change { ident: Some(tid), prev, result: None },
                                    ),
                                )
                            },
                        }
                    },
                }
            },
            Cmd::UpsertTableOptions(req) => {
                let found: Option<SeqV<TableMeta>> = match self.tables.get(&req.table_id) {
                    Option::Some(sv) => Some(sv.dup()),
                    Option::None => None,
                };
                match found {
                    Option::None => Err(ErrorCode::UnknownTableId(req.table_id)),
                    Option::Some(tv) => {
                        if req.seq.matches(tv.seq) {
                            let prev = tv.dup();
                            let mut meta = tv.data;
                            let n = req.options.len();
                            let mut i: usize = 0;
                            let ghost ws = crate::catalog::spec_option_writes(req.options@);
                            while i < n
                                invariant
                                    i <= n,
                                    n == req.options@.len(),
                                    ws == crate::catalog::spec_option_writes(req.options@),
                                    meta@.schema == prev@.data.schema,
                                    meta@.engine == prev@.data.engine,
                                    meta@.options == apply_option_writes(
                                        prev@.data.options,
                                        ws.take(i as int),
                                    ),
                                decreases n - i,
                            {
                                proof {
                                    assert(ws.take(i as int + 1).drop_last() =~= ws.take(
                                        i as int,
                                    ));
                                    assert(ws.take(i as int + 1).last() == ws[i as int]);
                                }
                                match &req.options[i].1 {
                                    Option::Some(v) => {
                                        let _ = meta.options.set(
                                            req.options[i].0.dup(),
                                            v.dup(),
                                        );
                                    },
                                    Option::None => {
                                        let _ = meta.options.remove(&req.options[i].0);
                                    },
                                }
                                i = i + 1;
                            }
                            proof {
                                assert(ws.take(n as int) =~= ws);
                            }
                            let s1 = self.seq + 1;
                            let stored = SeqV { seq: s1, data: meta };
                            let result = stored.dup();
                            let _ = self.tables.set(req.table_id, stored);
                            self.seq = s1;
                            proof {
                                let tvg = al_get(old(self)@.tables, req.table_id)->Some_0;
                                assert(stored@.data =~= TableMetaG {
                                    schema: tvg.data.schema,
                                    engine: tvg.data.engine,
                                    options: apply_option_writes(tvg.data.options, ws),
                                });
                                assert(self@ =~= sm_apply(old(self)@, cmd@).0);
                            }
                            Ok(
                                AppliedState::TableMeta(
                                    Change {
                                        ident: Some(req.table_id),
                                        prev: Some(prev),
                                        result: Some(result),
                                    },
                                ),
                            )
                        } else {
                            let result = tv.dup();
                            Ok(
                                AppliedState::TableMeta(
                                    Change {
                                        ident: Some(req.table_id),
                                        prev: Some(tv),
                                        result: Some(result),
                                    },
                                ),
                            )
                        }
                    },
                }
            },
        }
    }
}

/// The commands a committed log prefix carries.
pub open spec fn log_cmds(entries: Seq<LogEntry>) -> Seq<CmdG> {
    entries.map(|i: int, e: LogEntry| e@.cmd)
}

/// What `list_databases` reports: every database in store order, or the first
/// dangling database id found.
pub open spec fn spec_list_databases(
    dbs: Seq<(Seq<char>, SeqVG<u64>)>,
    metas: Seq<(u64, SeqVG<DatabaseMetaG>)>,
) -> Result<Seq<DatabaseInfoG>, ErrorCodeG>
    decreases dbs.len(),
{
    if dbs.len() == 0 {
        Ok(Seq::empty())
    } else {
        match spec_list_databases(dbs.drop_last(), metas) {
            Err(e) => Err(e),
            Ok(infos) => {
                let (name, idv) = dbs.last();
                match al_get(metas, idv.data) {
                    Option::None => Err(ErrorCodeG::IllegalMetaState(idv.data)),
                    Option::Some(m) => Ok(
                        infos.push(
                            DatabaseInfoG { database_id: idv.data, db: name, meta: m.data },
                        ),
                    ),
                }
            },
        }
    }
}

/// What `list_tables` reports for the database `db_id`: every table of the
/// database in store order, or the first dangling table id found.
pub open spec fn spec_list_tables(
    lookups: Seq<((u64, Seq<char>), SeqVG<u64>)>,
    tables: Seq<(u64, SeqVG<TableMetaG>)>,
    db_name: Seq<char>,
    db_id: u64,
) -> Result<Seq<TableInfoG>, ErrorCodeG>
    decreases lookups.len(),
{
    if lookups.len() == 0 {
        Ok(Seq::empty())
    } else {
        match spec_list_tables(lookups.drop_last(), tables, db_name, db_id) {
            Err(e) => Err(e),
            Ok(infos) => {
                let (key, tidv) = lookups.last();
                if key.0 == db_id {
                    match al_get(tables, tidv.data) {
                        Option::None => Err(ErrorCodeG::IllegalMetaState(tidv.data)),
                        Option::Some(m) => Ok(
                            infos.push(
                                TableInfoG {
                                    table_id: tidv.data,
                                    version: m.seq,
                                    desc: spec_table_desc(db_name, key.1),
                                    name: key.1,
                                    meta: m.data,
                                },
                            ),
                        ),
                    }
                } else {
                    Ok(infos)
                }
            },
        }
    }
}

impl StateMachine {
    /// The store-wide counter: the seq of the latest stamped write.
    pub fn last_seq(&self) -> (r: u64)
        ensures
            r == self@.seq,
    {
        self.seq
    }

    /// Resolve a database name locally.
    pub fn get_database_id(&self, db_name: &String) -> (r: Result<u64, ErrorCode>)
        ensures
            match r {
                Ok(id) => al_get(self@.databases, db_name@) matches Some(idv) && idv.data == id,
                Err(e) => al_get(self@.databases, db_name@) is None && e@
                    == ErrorCodeG::UnknownDatabase(db_name@),
            },
    {
        match self.databases.get(db_name) {
            Option::Some(sv) => Ok(sv.data),
            Option::None => Err(ErrorCode::UnknownDatabase(db_name.dup())),
        }
    }

    /// The meta of a database id, as stamped, read locally.
    pub fn get_database_meta_by_id(&self, db_id: u64) -> (r: Option<SeqV<DatabaseMeta>>)
        ensures
            match r {
                Option::Some(sv) => al_get(self@.database_metas, db_id) == Some(sv@),
                Option::None => al_get(self@.database_metas, db_id) is None,
            },
    {
        match self.database_metas.get(&db_id) {
            Option::Some(sv) => Some(sv.dup()),
            Option::None => None,
        }
    }

    /// A database as the catalog reports it, read locally (possibly stale
    /// relative to the leader).
    pub fn get_database(&self, req: &GetDatabaseReq) -> (r: Result<DatabaseInfo, ErrorCode>)
        ensures
            match r {
                Ok(info) => {
                    &&& al_get(self@.databases, req.db_name@) matches Some(idv)
                    &&& info@.database_id == idv.data
                    &&& info@.db == req.db_name@
                    &&& al_get(self@.database_metas, idv.data) matches Some(m) && m.data
                        == info@.meta
                },
                Err(e) => match al_get(self@.databases, req.db_name@) {
                    Option::None => e@ == ErrorCodeG::UnknownDatabase(req.db_name@),
                    Option::Some(idv) => al_get(self@.database_metas, idv.data) is None && e@
                        == ErrorCodeG::IllegalMetaState(idv.data),
                },
            },
    {
        let db_id = self.get_database_id(&req.db_name)?;
        match self.get_database_meta_by_id(db_id) {
            Option::None => Err(ErrorCode::IllegalMetaState(db_id)),
            Option::Some(sv) => Ok(
                DatabaseInfo { database_id: db_id, db: req.db_name.dup(), meta: sv.data },
            ),
        }
    }

    /// Every database, in store order, read locally.
    pub fn list_databases(&self) -> (r: Result<Vec<DatabaseInfo>, ErrorCode>)
        ensures
            match r {
                Ok(infos) => spec_list_databases(self@.databases, self@.database_metas)
                    == Ok::<Seq<DatabaseInfoG>, ErrorCodeG>(
                    infos@.map(|i: int, x: DatabaseInfo| x@),
                ),
                Err(e) => spec_list_databases(self@.databases, self@.database_metas)
                    == Err::<Seq<DatabaseInfoG>, ErrorCodeG>(e@),
            },
    {
        let n = self.databases.len();
        let mut infos: Vec<DatabaseInfo> = Vec::new();
        let mut i: usize = 0;
        proof {
            assert(self@.databases.take(0) =~= Seq::<(Seq<char>, SeqVG<u64>)>::empty());
            assert(infos@.map(|j: int, x: DatabaseInfo| x@) =~= Seq::<DatabaseInfoG>::empty());
        }
        while i < n
            invariant
                i <= n,
                n == self@.databases.len(),
                spec_list_databases(self@.databases.take(i as int), self@.database_metas)
                    == Ok::<Seq<DatabaseInfoG>, ErrorCodeG>(
                    infos@.map(|j: int, x: DatabaseInfo| x@),
                ),
            decreases n - i,
        {
            proof {
                assert(self@.databases.take(i as int + 1).drop_last() =~= self@.databases.take(
                    i as int,
                ));
                assert(self@.databases.take(i as int + 1).last() == self@.databases[i as int]);
            }
            let name = self.databases.key_at(i).dup();
            let idv = self.databases.val_at(i);
            let db_id = idv.data;
            match self.database_metas.get(&db_id) {
                Option::None => {
                    proof {
                        assert(spec_list_databases(
                            self@.databases.take(i as int + 1),
                            self@.database_metas,
                        ) is Err);
                        lemma_spec_list_databases_err_prefix(
                            self@.databases,
                            self@.database_metas,
                            i as int + 1,
                        );
                    }
                    return Err(ErrorCode::IllegalMetaState(db_id));
                },
                Option::Some(m) => {
                    let info = DatabaseInfo { database_id: db_id, db: name, meta: m.data.dup() };
                    let ghost prev_infos = infos@;
                    proof {
                        assert(info@ =~= DatabaseInfoG {
                            database_id: self@.databases[i as int].1.data,
                            db: self@.databases[i as int].0,
                            meta: al_get(
                                self@.database_metas,
                                self@.databases[i as int].1.data,
                            )->Some_0.data,
                        });
                    }
                    infos.push(info);
                    proof {
                        assert(infos@.map(|j: int, x: DatabaseInfo| x@) =~= prev_infos.map(
                            |j: int, x: DatabaseInfo| x@,
                        ).push(info@));
                    }
                },
            }
            i = i + 1;
        }
        proof {
            assert(self@.databases.take(n as int) =~= self@.databases);
        }
        Ok(infos)
    }

    /// The table id of a name inside a database, read locally.
    pub fn lookup_table_id(&self, db_id: u64, name: &String) -> (r: Option<SeqV<u64>>)
        ensures
            match r {
                Option::Some(sv) => al_get(self@.table_lookups, (db_id, name@)) == Some(sv@),
                Option::None => al_get(self@.table_lookups, (db_id, name@)) is None,
            },
    {
        let key = TableLookupKey { database_id: db_id, table_name: name.dup() };
        match self.table_lookups.get(&key) {
            Option::Some(sv) => Some(sv.dup()),
            Option::None => None,
        }
    }

    /// The meta of a table id, as stamped, read locally.
    pub fn get_table_meta_by_id(&self, table_id: u64) -> (r: Option<SeqV<TableMeta>>)
        ensures
            match r {
                Option::Some(sv) => al_get(self@.tables, table_id) == Some(sv@),
                Option::None => al_get(self@.tables, table_id) is None,
            },
    {
        match self.tables.get(&table_id) {
            Option::Some(sv) => Some(sv.dup()),
            Option::None => None,
        }
    }

    /// A table and its version, by id, read locally.
    pub fn get_table_by_id(&self, table_id: u64) -> (r: Result<(TableIdent, TableMeta), ErrorCode>)
        ensures
            match r {
                Ok(p) => al_get(self@.tables, table_id) matches Some(m) && p.0.table_id == table_id
                    && p.0.version == m.seq && p.1@ == m.data,
                Err(e) => al_get(self@.tables, table_id) is None && e@
                    == ErrorCodeG::UnknownTableId(table_id),
            },
    {
        match self.get_table_meta_by_id(table_id) {
            Option::None => Err(ErrorCode::UnknownTableId(table_id)),
            Option::Some(sv) => Ok((TableIdent::new(table_id, sv.seq), sv.data)),
        }
    }

    /// A table as the catalog reports it, read locally.
    pub fn get_table(&self, req: &GetTableReq) -> (r: Result<TableInfo, ErrorCode>)
        ensures
            match r {
                Ok(info) => {
                    &&& al_get(self@.databases, req.db_name@) matches Some(idv)
                    &&& al_get(self@.table_lookups, (idv.data, req.table_name@)) matches Some(tidv)
                    &&& al_get(self@.tables, tidv.data) matches Some(m)
                    &&& info@ == (TableInfoG {
                        table_id: tidv.data,
                        version: m.seq,
                        desc: spec_table_desc(req.db_name@, req.table_name@),
                        name: req.table_name@,
                        meta: m.data,
                    })
                },
                Err(e) => match al_get(self@.databases, req.db_name@) {
                    Option::None => e@ == ErrorCodeG::UnknownDatabase(req.db_name@),
                    Option::Some(idv) => match al_get(
                        self@.table_lookups,
                        (idv.data, req.table_name@),
                    ) {
                        Option::None => e@ == ErrorCodeG::UnknownTable(req.table_name@),
                        Option::Some(tidv) => al_get(self@.tables, tidv.data) is None && e@
                            == ErrorCodeG::UnknownTable(req.table_name@),
                    },
                },
            },
    {
        let db_id = self.get_database_id(&req.db_name)?;
        let tidv = match self.lookup_table_id(db_id, &req.table_name) {
            Option::None => {
                return Err(ErrorCode::UnknownTable(req.table_name.dup()));
            },
            Option::Some(sv) => sv,
        };
        match self.get_table_meta_by_id(tidv.data) {
            Option::None => Err(ErrorCode::UnknownTable(req.table_name.dup())),
            Option::Some(sv) => {
                let ident = TableIdent::new(tidv.data, sv.seq);
                Ok(TableInfo::new(&req.db_name, &req.table_name, ident, sv.data))
            },
        }
    }

    /// Every table of a database, in store order, read locally.
    pub fn list_tables(&self, req: &ListTableReq) -> (r: Result<Vec<TableInfo>, ErrorCode>)
        ensures
            match r {
                Ok(infos) => {
                    &&& al_get(self@.databases, req.db_name@) matches Some(idv)
                    &&& spec_list_tables(
                        self@.table_lookups,
                        self@.tables,
                        req.db_name@,
                        idv.data,
                    ) == Ok::<Seq<TableInfoG>, ErrorCodeG>(
                        infos@.map(|i: int, x: TableInfo| x@),
                    )
                },
                Err(e) => match al_get(self@.databases, req.db_name@) {
                    Option::None => e@ == ErrorCodeG::UnknownDatabase(req.db_name@),
                    Option::Some(idv) => spec_list_tables(
                        self@.table_lookups,
                        self@.tables,
                        req.db_name@,
                        idv.data,
                    ) == Err::<Seq<TableInfoG>, ErrorCodeG>(e@),
                },
            },
    {
        let db_id = self.get_database_id(&req.db_name)?;
        let n = self.table_lookups.len();
        let mut infos: Vec<TableInfo> = Vec::new();
        let mut i: usize = 0;
        proof {
            assert(self@.table_lookups.take(0) =~= Seq::<
                ((u64, Seq<char>), SeqVG<u64>),
            >::empty());
            assert(infos@.map(|j: int, x: TableInfo| x@) =~= Seq::<TableInfoG>::empty());
        }
        while i < n
            invariant
                i <= n,
                n == self@.table_lookups.len(),
                al_get(self@.databases, req.db_name@) matches Some(idv) && idv.data == db_id,
                spec_list_tables(
                    self@.table_lookups.take(i as int),
                    self@.tables,
                    req.db_name@,
                    db_id,
                ) == Ok::<Seq<TableInfoG>, ErrorCodeG>(infos@.map(|j: int, x: TableInfo| x@)),
            decreases n - i,
        {
            proof {
                assert(self@.table_lookups.take(i as int + 1).drop_last()
                    =~= self@.table_lookups.take(i as int));
                assert(self@.table_lookups.take(i as int + 1).last()
                    == self@.table_lookups[i as int]);
            }
            let key = self.table_lookups.key_at(i);
            if key.database_id == db_id {
                let table_name = key.table_name.dup();
                let tid = self.table_lookups.val_at(i).data;
                match self.tables.get(&tid) {
                    Option::None => {
                        proof {
                            assert(al_get(self@.databases, req.db_name@) matches Some(idv)
                                && idv.data == db_id);
                            assert(spec_list_tables(
                                self@.table_lookups.take(i as int + 1),
                                self@.tables,
                                req.db_name@,
                                db_id,
                            ) == Err::<Seq<TableInfoG>, ErrorCodeG>(
                                ErrorCodeG::IllegalMetaState(tid),
                            ));
                            lemma_spec_list_tables_err_prefix(
                                self@.table_lookups,
                                self@.tables,
                                req.db_name@,
                                db_id,
                                i as int + 1,
                            );
                        }
                        return Err(ErrorCode::IllegalMetaState(tid));
                    },
                    Option::Some(m) => {
                        let ident = TableIdent::new(tid, m.seq);
                        let info = TableInfo::new(&req.db_name, &table_name, ident, m.data.dup());
                        let ghost prev_infos = infos@;
                        proof {
                            assert(info@ =~= TableInfoG {
                                table_id: self@.table_lookups[i as int].1.data,
                                version: al_get(
                                    self@.tables,
                                    self@.table_lookups[i as int].1.data,
                                )->Some_0.seq,
                                desc: spec_table_desc(
                                    req.db_name@,
                                    self@.table_lookups[i as int].0.1,
                                ),
                                name: self@.table_lookups[i as int].0.1,
                                meta: al_get(
                                    self@.tables,
                                    self@.table_lookups[i as int].1.data,
                                )->Some_0.data,
                            });
                        }
                        infos.push(info);
                        proof {
                            assert(infos@.map(|j: int, x: TableInfo| x@) =~= prev_infos.map(
                                |j: int, x: TableInfo| x@,
                            ).push(info@));
                        }
                    },
                }
            }
            i = i + 1;
        }
        proof {
            assert(self@.table_lookups.take(n as int) =~= self@.table_lookups);
        }
        Ok(infos)
    }

    /// A node of the registry, read locally.
    pub fn get_node(&self, node_id: u64) -> (r: Option<Node>)
        ensures
            match r {
                Option::Some(node) => al_get(self@.nodes, node_id) matches Some(sv) && sv.data
                    == node@,
                Option::None => al_get(self@.nodes, node_id) is None,
            },
    {
        match self.nodes.get(&node_id) {
            Option::Some(sv) => Some(sv.data.dup()),
            Option::None => None,
        }
    }

    /// Every registered node, in store order, read locally.
    pub fn get_nodes(&self) -> (r: Vec<Node>)
        ensures
            r@.len() == self@.nodes.len(),
            forall|i: int| 0 <= i < r@.len() ==> #[trigger] r@[i]@ == self@.nodes[i].1.data,
    {
        let n = self.nodes.len();
        let mut r: Vec<Node> = Vec::new();
        let mut i: usize = 0;
        while i < n
            invariant
                i <= n,
                n == self@.nodes.len(),
                r@.len() == i,
                forall|j: int| 0 <= j < i ==> #[trigger] r@[j]@ == self@.nodes[j].1.data,
            decreases n - i,
        {
            r.push(self.nodes.val_at(i).data.dup());
            i = i + 1;
        }
        r
    }

    /// Apply one committed log entry; the transaction id rides along and does
    /// not change what the command does.
    pub fn apply_entry(&mut self, entry: &LogEntry) -> (r: Result<AppliedState, ErrorCode>)
        requires
            old(self).wf(),
            old(self)@.seq <= u64::MAX - 2,
        ensures
            final(self).wf(),
            final(self)@ == sm_apply(old(self)@, entry@.cmd).0,
            r is Ok ==> sm_apply(old(self)@, entry@.cmd).1 == Ok::<AppliedStateG, ErrorCodeG>(
                r->Ok_0@,
            ),
            r is Err ==> sm_apply(old(self)@, entry@.cmd).1 == Err::<AppliedStateG, ErrorCodeG>(
                r->Err_0@,
            ),
    {
        self.apply_cmd(&entry.cmd)
    }

    /// Replay a committed log prefix in order, as every replica does. The
    /// state this leaves behind is `sm_apply_log` of the prefix: a function of
    /// the starting state and the prefix alone.
    pub fn apply_entries(&mut self, entries: &Vec<LogEntry>)
        requires
            old(self).wf(),
            old(self)@.seq + 2 * entries@.len() <= u64::MAX,
        ensures
            final(self).wf(),
            final(self)@ == sm_apply_log(old(self)@, log_cmds(entries@)),
            final(self)@.seq <= old(self)@.seq + 2 * entries@.len(),
    {
        let n = entries.len();
        let mut i: usize = 0;
        while i < n
            invariant
                i <= n,
                n == entries@.len(),
                self.wf(),
                old(self)@.seq + 2 * entries@.len() <= u64::MAX,
                self@ == sm_apply_log(old(self)@, log_cmds(entries@).take(i as int)),
                self@.seq <= old(self)@.seq + 2 * i,
            decreases n - i,
        {
            proof {
                assert(log_cmds(entries@).take(i as int + 1).drop_last() =~= log_cmds(
                    entries@,
                ).take(i as int));
                assert(log_cmds(entries@).take(i as int + 1).last() == entries@[i as int]@.cmd);
            }
            let _ = self.apply_entry(&entries[i]);
            i = i + 1;
        }
        proof {
            assert(log_cmds(entries@).take(n as int) =~= log_cmds(entries@));
        }
    }
}

impl Dup for StateMachine {
    fn dup(&self) -> (r: Self)
        ensures
            r@ == self@,
    {
        let r = StateMachine {
            seq: self.seq,
            sequences: self.sequences.dup(),
            databases: self.databases.dup(),
            database_metas: self.database_metas.dup(),
            table_lookups: self.table_lookups.dup(),
            tables: self.tables.dup(),
            nodes: self.nodes.dup(),
        };
        proof {
            assert(r@ =~= self@);
        }
        r
    }
}

/// A failing list of databases fails the same way on every longer prefix.
proof fn lemma_spec_list_databases_err_prefix(
    dbs: Seq<(Seq<char>, SeqVG<u64>)>,
    metas: Seq<(u64, SeqVG<DatabaseMetaG>)>,
    n: int,
)
    requires
        0 <= n <= dbs.len(),
        spec_list_databases(dbs.take(n), metas) is Err,
    ensures
        spec_list_databases(dbs, metas) == spec_list_databases(dbs.take(n), metas),
    decreases dbs.len() - n,
{
    if n < dbs.len() {
        assert(dbs.take(n + 1).drop_last() =~= dbs.take(n));
        lemma_spec_list_databases_err_prefix(dbs, metas, n + 1);
    } else {
        assert(dbs.take(n) =~= dbs);
    }
}

/// A failing list of tables fails the same way on every longer prefix.
proof fn lemma_spec_list_tables_err_prefix(
    lookups: Seq<((u64, Seq<char>), SeqVG<u64>)>,
    tables: Seq<(u64, SeqVG<TableMetaG>)>,
    db_name: Seq<char>,
    db_id: u64,
    n: int,
)
    requires
        0 <= n <= lookups.len(),
        spec_list_tables(lookups.take(n), tables, db_name, db_id) is Err,
    ensures
        spec_list_tables(lookups, tables, db_name, db_id) == spec_list_tables(
            lookups.take(n),
            tables,
            db_name,
            db_id,
        ),
    decreases lookups.len() - n,
{
    if n < lookups.len() {
        assert(lookups.take(n + 1).drop_last() =~= lookups.take(n));
        lemma_spec_list_tables_err_prefix(lookups, tables, db_name, db_id, n + 1);
    } else {
        assert(lookups.take(n) =~= lookups);
    }
}

} // verus!
