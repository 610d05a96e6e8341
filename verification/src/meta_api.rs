//! The catalog API over the state machine: each call applies one command and
//! then decides, from the reported `Change` and the request's existence flag
//! alone, whether a no-op is success or a conflict. The state machine reports
//! facts; the policy lives here.

use vstd::prelude::*;

use crate::assoc::al_get;
use crate::catalog::CreateDatabaseReply;
use crate::catalog::CreateDatabaseReq;
use crate::catalog::CreateTableReply;
use crate::catalog::CreateTableReq;
use crate::catalog::DropDatabaseReply;
use crate::catalog::DropDatabaseReq;
use crate::catalog::DropTableReply;
use crate::catalog::DropTableReq;
use crate::catalog::UpsertTableOptionReply;
use crate::catalog::UpsertTableOptionReq;
use crate::catalog::spec_option_writes;
use crate::change::AppliedState;
use crate::change::Change;
use crate::cmd::Cmd;
use crate::cmd::CmdG;
use crate::dup::Dup;
use crate::errors::ErrorCode;
use crate::errors::ErrorCodeG;
use crate::match_seq::spec_matches;
use crate::seqv::SeqVG;
use crate::state_machine::sm_apply;
use crate::state_machine::StateMachine;

verus! {

impl StateMachine {
    /// Create a database. A second creation of the same name reports
    /// `DatabaseAlreadyExists` unless `if_not_exists` is set, and either way
    /// leaves the state as the first creation left it.
    pub fn create_database(&mut self, req: CreateDatabaseReq) -> (r: Result<
        CreateDatabaseReply,
        ErrorCode,
    >)
        requires
            old(self).wf(),
            old(self)@.seq <= u64::MAX - 2,
        ensures
            final(self).wf(),
            final(self)@ == sm_apply(
                old(self)@,
                CmdG::CreateDatabase { name: req.db@, engine: req.engine@ },
            ).0,
            match al_get(old(self)@.databases, req.db@) {
                Option::Some(idv) => {
                    &&& !req.if_not_exists ==> (r matches Err(e) && e@
                        == ErrorCodeG::DatabaseAlreadyExists(req.db@))
                    &&& req.if_not_exists ==> (r matches Ok(reply) && reply.database_id
                        == idv.data)
                    &&& final(self)@ == old(self)@
                },
                Option::None => r matches Ok(reply) && reply.database_id
                    == crate::state_machine::next_id(
                    old(self)@.sequences,
                    crate::state_machine::db_id_gen_key(),
                ),
            },
    {
        let existed = match self.get_database_id(&req.db) {
            Ok(_) => true,
            Err(_) => false,
        };
        let cmd = Cmd::CreateDatabase { name: req.db.dup(), engine: req.engine.dup() };
        let res = self.apply_cmd(&cmd);
        let ch: Change<crate::catalog::DatabaseMeta> = match res {
            Ok(AppliedState::DatabaseMeta(ch)) => ch,
            _ => {
                proof {
                    assert(false);
                }
                Change { ident: None, prev: None, result: None }
            },
        };
        let db_id = match ch.ident {
            Option::Some(id) => id,
            Option::None => {
                proof {
                    assert(false);
                }
                0
            },
        };
        if existed && !req.if_not_exists {
            return Err(ErrorCode::DatabaseAlreadyExists(req.db));
        }
        Ok(CreateDatabaseReply { database_id: db_id })
    }

    /// Drop a database. Dropping an absent name reports `UnknownDatabase`
    /// unless `if_exists` is set; either way the name is absent afterwards.
    pub fn drop_database(&mut self, req: DropDatabaseReq) -> (r: Result<
        DropDatabaseReply,
        ErrorCode,
    >)
        requires
            old(self).wf(),
            old(self)@.seq <= u64::MAX - 2,
        ensures
            final(self).wf(),
            final(self)@ == sm_apply(old(self)@, CmdG::DropDatabase { name: req.db@ }).0,
            al_get(final(self)@.databases, req.db@) is None,
            match al_get(old(self)@.databases, req.db@) {
                Option::Some(_) => r is Ok,
                Option::None => {
                    &&& !req.if_exists ==> (r matches Err(e) && e@
                        == ErrorCodeG::UnknownDatabase(req.db@))
                    &&& req.if_exists ==> r is Ok
                    &&& final(self)@ == old(self)@
                },
            },
    {
        let existed = match self.get_database_id(&req.db) {
            Ok(_) => true,
            Err(_) => false,
        };
        let cmd = Cmd::DropDatabase { name: req.db.dup() };
        let _ = self.apply_cmd(&cmd);
        proof {
            crate::assoc::lemma_al_remove_get(old(self)@.databases, req.db@, req.db@);
        }
        if !existed && !req.if_exists {
            return Err(ErrorCode::UnknownDatabase(req.db));
        }
        Ok(DropDatabaseReply {})
    }

    /// Create a table. A second creation of the same name in the same database
    /// reports `TableAlreadyExists` unless `if_not_exists` is set, and either
    /// way leaves the state as the first creation left it; exactly one of any
    /// number of creators of one name allocates a table id.
    pub fn create_table(&mut self, req: CreateTableReq) -> (r: Result<CreateTableReply, ErrorCode>)
        requires
            old(self).wf(),
            old(self)@.seq <= u64::MAX - 2,
        ensures
            final(self).wf(),
            final(self)@ == sm_apply(
                old(self)@,
                CmdG::CreateTable {
                    db_name: req.db@,
                    table_name: req.table@,
                    table_meta: req.table_meta@,
                },
            ).0,
            match al_get(old(self)@.databases, req.db@) {
                Option::None => {
                    &&& r matches Err(e) && e@ == ErrorCodeG::UnknownDatabase(req.db@)
                    &&& final(self)@ == old(self)@
                },
                Option::Some(idv) => match al_get(
                    old(self)@.table_lookups,
                    (idv.data, req.table@),
                ) {
                    Option::Some(tv) => {
                        &&& !req.if_not_exists ==> (r matches Err(e) && e@
                            == ErrorCodeG::TableAlreadyExists(req.table@))
                        &&& req.if_not_exists ==> (r matches Ok(reply) && reply.table_id
                            == tv.data)
                        &&& final(self)@ == old(self)@
                    },
                    Option::None => r matches Ok(reply) && reply.table_id
                        == crate::state_machine::next_id(
                        old(self)@.sequences,
                        crate::state_machine::table_id_gen_key(),
                    ),
                },
            },
    {
        let existed = match self.get_database_id(&req.db) {
            Ok(db_id) => match self.lookup_table_id(db_id, &req.table) {
                Option::Some(_) => true,
                Option::None => false,
            },
            Err(_) => false,
        };
        let cmd = Cmd::CreateTable {
            db_name: req.db.dup(),
            table_name: req.table.dup(),
            table_meta: req.table_meta,
        };
        let res = self.apply_cmd(&cmd);
        let ch: Change<crate::catalog::TableMeta> = match res {
            Ok(AppliedState::TableMeta(ch)) => ch,
            Err(e) => {
                return Err(e);
            },
            _ => {
                proof {
                    assert(false);
                }
                Change { ident: None, prev: None, result: None }
            },
        };
        let table_id = match ch.ident {
            Option::Some(id) => id,
            Option::None => {
                proof {
                    assert(false);
                }
                0
            },
        };
        if existed && !req.if_not_exists {
            return Err(ErrorCode::TableAlreadyExists(req.table));
        }
        Ok(CreateTableReply { table_id })
    }

    /// Drop a table. Dropping an absent name reports `UnknownTable` unless
    /// `if_exists` is set.
    pub fn drop_table(&mut self, req: DropTableReq) -> (r: Result<DropTableReply, ErrorCode>)
        requires
            old(self).wf(),
            old(self)@.seq <= u64::MAX - 2,
        ensures
            final(self).wf(),
            final(self)@ == sm_apply(
                old(self)@,
                CmdG::DropTable { db_name: req.db@, table_name: req.table@ },
            ).0,
            match al_get(old(self)@.databases, req.db@) {
                Option::None => {
                    &&& r matches Err(e) && e@ == ErrorCodeG::UnknownDatabase(req.db@)
                    &&& final(self)@ == old(self)@
                },
                Option::Some(idv) => match al_get(
                    old(self)@.table_lookups,
                    (idv.data, req.table@),
                ) {
                    Option::Some(_) => r is Ok && al_get(
                        final(self)@.table_lookups,
                        (idv.data, req.table@),
                    ) is None,
                    Option::None => {
                        &&& !req.if_exists ==> (r matches Err(e) && e@
                            == ErrorCodeG::UnknownTable(req.table@))
                        &&& req.if_exists ==> r is Ok
                        &&& final(self)@ == old(self)@
                    },
                },
            },
    {
        let existed = match self.get_database_id(&req.db) {
            Ok(db_id) => match self.lookup_table_id(db_id, &req.table) {
                Option::Some(_) => true,
                Option::None => false,
            },
            Err(_) => false,
        };
        let cmd = Cmd::DropTable { db_name: req.db.dup(), table_name: req.table.dup() };
        let res = self.apply_cmd(&cmd);
        match res {
            Ok(_) => {},
            Err(e) => {
                return Err(e);
            },
        }
        proof {
            match al_get(old(self)@.databases, req.db@) {
                Option::Some(idv) => {
                    crate::assoc::lemma_al_remove_get(
                        old(self)@.table_lookups,
                        (idv.data, req.table@),
                        (idv.data, req.table@),
                    );
                },
                Option::None => {},
            }
        }
        if !existed && !req.if_exists {
            return Err(ErrorCode::UnknownTable(req.table));
        }
        Ok(DropTableReply {})
    }

    /// Merge options into a table, conditionally on its current seq. A stale
    /// precondition reports `TableVersionMismatch` carrying the precondition
    /// and the seq the table actually holds, and changes nothing; a matching
    /// one stamps the merged meta with a strictly larger seq.
    pub fn upsert_table_option(&mut self, req: UpsertTableOptionReq) -> (r: Result<
        UpsertTableOptionReply,
        ErrorCode,
    >)
        requires
            old(self).wf(),
            old(self)@.seq <= u64::MAX - 2,
        ensures
            final(self).wf(),
            final(self)@ == sm_apply(
                old(self)@,
                CmdG::UpsertTableOptions {
                    table_id: req.table_id,
                    seq: req.seq,
                    options: spec_option_writes(req.options@),
                },
            ).0,
            match al_get(old(self)@.tables, req.table_id) {
                Option::None => {
                    &&& r matches Err(e) && e@ == ErrorCodeG::UnknownTableId(req.table_id)
                    &&& final(self)@ == old(self)@
                },
                Option::Some(tv) => {
                    &&& !spec_matches(req.seq, tv.seq) ==> {
                        &&& r matches Err(e) && e@ == ErrorCodeG::TableVersionMismatch(
                            req.seq,
                            tv.seq,
                        )
                        &&& final(self)@ == old(self)@
                    }
                    &&& spec_matches(req.seq, tv.seq) ==> {
                        &&& r is Ok
                        &&& al_get(final(self)@.tables, req.table_id) matches Some(nv)
                            && nv.seq > tv.seq && nv.data.options
                            == crate::state_machine::apply_option_writes(
                            tv.data.options,
                            spec_option_writes(req.options@),
                        )
                    }
                },
            },
    {
        let ghost s0 = old(self)@;
        let table_id = req.table_id;
        let seq_cond = req.seq;
        let ghost writes = spec_option_writes(req.options@);
        let res = self.apply_cmd(&Cmd::UpsertTableOptions(req));
        let ch: Change<crate::catalog::TableMeta> = match res {
            Ok(AppliedState::TableMeta(ch)) => ch,
            Err(e) => {
                return Err(e);
            },
            _ => {
                proof {
                    assert(false);
                }
                Change { ident: None, prev: None, result: None }
            },
        };
        proof {
            if al_get(s0.tables, table_id) is Some {
                let tv = al_get(s0.tables, table_id)->Some_0;
                crate::assoc::lemma_al_get_index(s0.tables, table_id);
                let i = choose|i: int|
                    0 <= i < s0.tables.len() && s0.tables[i] == (table_id, tv);
                assert(s0.tables[i].1.seq <= s0.seq);
                if spec_matches(seq_cond, tv.seq) {
                    let merged = crate::catalog::TableMetaG {
                        schema: tv.data.schema,
                        engine: tv.data.engine,
                        options: crate::state_machine::apply_option_writes(
                            tv.data.options,
                            writes,
                        ),
                    };
                    let sv = SeqVG { seq: (s0.seq + 1) as u64, data: merged };
                    crate::assoc::lemma_al_set_get(s0.tables, table_id, sv, table_id);
                }
            }
        }
        if !ch.changed() {
            let prev_seq = match &ch.prev {
                Option::Some(sv) => sv.seq,
                Option::None => {
                    proof {
                        assert(false);
                    }
                    0
                },
            };
            return Err(ErrorCode::TableVersionMismatch(seq_cond, prev_seq));
        }
        Ok(UpsertTableOptionReply {})
    }
}

} // verus!
