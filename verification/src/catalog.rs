//! The catalog objects the metadata service stores, and the requests and
//! replies of the catalog API.

use vstd::prelude::*;

use crate::alist::AList;
use crate::alist::AssocKey;
use crate::data_field::DataField;
use crate::data_field::DataFieldG;
use crate::dup::dup_vec;
use crate::dup::Dup;
use crate::match_seq::MatchSeq;

verus! {

/// What the catalog stores about a database.
#[derive(Debug, PartialEq, Eq)]
pub struct DatabaseMeta {
    pub engine: String,
}

#[verifier::ext_equal]
pub ghost struct DatabaseMetaG {
    pub engine: Seq<char>,
}

impl View for DatabaseMeta {
    type V = DatabaseMetaG;

    open spec fn view(&self) -> DatabaseMetaG {
        DatabaseMetaG { engine: self.engine@ }
    }
}

impl Dup for DatabaseMeta {
    fn dup(&self) -> (r: Self)
        ensures
            r@ == self@,
    {
        let r = DatabaseMeta { engine: self.engine.dup() };
        proof {
            assert(r@ =~= self@);
        }
        r
    }
}

/// What the catalog stores about a table: its schema, its engine, and the
/// engine options, an ordered mapping with distinct keys.
#[derive(Debug)]
pub struct TableMeta {
    pub schema: Vec<DataField>,
    pub engine: String,
    pub options: AList<String, String>,
}

#[verifier::ext_equal]
pub ghost struct TableMetaG {
    pub schema: Seq<DataFieldG>,
    pub engine: Seq<char>,
    pub options: Seq<(Seq<char>, Seq<char>)>,
}

impl View for TableMeta {
    type V = TableMetaG;

    open spec fn view(&self) -> TableMetaG {
        TableMetaG {
            schema: self.schema@.map(|i: int, f: DataField| f@),
            engine: self.engine@,
            options: self.options@,
        }
    }
}

impl TableMeta {
    /// The option keys are pairwise distinct.
    pub open spec fn wf(&self) -> bool {
        self.options.wf()
    }
}

impl Dup for TableMeta {
    fn dup(&self) -> (r: Self)
        ensures
            r@ == self@,
            r.wf() == self.wf(),
    {
        let r = TableMeta {
            schema: dup_vec(&self.schema),
            engine: self.engine.dup(),
            options: self.options.dup(),
        };
        proof {
            assert(r@.schema =~= self@.schema);
            assert(r@ =~= self@);
        }
        r
    }
}

/// A member of the cluster, as persisted in the node registry.
#[derive(Debug, PartialEq, Eq)]
pub struct Node {
    pub name: String,
    pub address: String,
}

#[verifier::ext_equal]
pub ghost struct NodeG {
    pub name: Seq<char>,
    pub address: Seq<char>,
}

impl View for Node {
    type V = NodeG;

    open spec fn view(&self) -> NodeG {
        NodeG { name: self.name@, address: self.address@ }
    }
}

impl Dup for Node {
    fn dup(&self) -> (r: Self)
        ensures
            r@ == self@,
    {
        let r = Node { name: self.name.dup(), address: self.address.dup() };
        proof {
            assert(r@ =~= self@);
        }
        r
    }
}

/// The identity of one version of a table: which table, and the seq its meta
/// carried when it was read.
#[derive(Debug, PartialEq, Eq, Structural)]
pub struct TableIdent {
    pub table_id: u64,
    pub version: u64,
}

impl TableIdent {
    pub fn new(table_id: u64, version: u64) -> (r: Self)
        ensures
            r.table_id == table_id,
            r.version == version,
    {
        TableIdent { table_id, version }
    }
}

/// A table as the catalog API reports it.
#[derive(Debug)]
pub struct TableInfo {
    pub ident: TableIdent,
    /// `'db'.'table'`, for display.
    pub desc: String,
    pub name: String,
    pub meta: TableMeta,
}

#[verifier::ext_equal]
pub ghost struct TableInfoG {
    pub table_id: u64,
    pub version: u64,
    pub desc: Seq<char>,
    pub name: Seq<char>,
    pub meta: TableMetaG,
}

impl View for TableInfo {
    type V = TableInfoG;

    open spec fn view(&self) -> TableInfoG {
        TableInfoG {
            table_id: self.ident.table_id,
            version: self.ident.version,
            desc: self.desc@,
            name: self.name@,
            meta: self.meta@,
        }
    }
}

/// The display form `'db'.'table'`.
pub open spec fn spec_table_desc(db: Seq<char>, table: Seq<char>) -> Seq<char> {
    "'"@ + db + "'.'"@ + table + "'"@
}

impl TableInfo {
    pub fn new(db_name: &String, table_name: &String, ident: TableIdent, meta: TableMeta) -> (r:
        Self)
        ensures
            r@ == (TableInfoG {
                table_id: ident.table_id,
                version: ident.version,
                desc: spec_table_desc(db_name@, table_name@),
                name: table_name@,
                meta: meta@,
            }),
    {
        let mut desc = String::from_str("'");
        desc.append(db_name.as_str());
        desc.append("'.'");
        desc.append(table_name.as_str());
        desc.append("'");
        let r = TableInfo { ident, desc, name: table_name.dup(), meta };
        proof {
            assert(r@ =~= TableInfoG {
                table_id: ident.table_id,
                version: ident.version,
                desc: spec_table_desc(db_name@, table_name@),
                name: table_name@,
                meta: meta@,
            });
        }
        r
    }
}

/// A database as the catalog API reports it.
#[derive(Debug)]
pub struct DatabaseInfo {
    pub database_id: u64,
    pub db: String,
    pub meta: DatabaseMeta,
}

#[verifier::ext_equal]
pub ghost struct DatabaseInfoG {
    pub database_id: u64,
    pub db: Seq<char>,
    pub meta: DatabaseMetaG,
}

impl View for DatabaseInfo {
    type V = DatabaseInfoG;

    open spec fn view(&self) -> DatabaseInfoG {
        DatabaseInfoG { database_id: self.database_id, db: self.db@, meta: self.meta@ }
    }
}

/// The key of the table-name lookup key-space: a table name inside a database.
#[derive(Debug, PartialEq, Eq)]
pub struct TableLookupKey {
    pub database_id: u64,
    pub table_name: String,
}

impl View for TableLookupKey {
    type V = (u64, Seq<char>);

    open spec fn view(&self) -> (u64, Seq<char>) {
        (self.database_id, self.table_name@)
    }
}

impl AssocKey for TableLookupKey {
    fn same_key(&self, other: &Self) -> (r: bool)
        ensures
            r == (self@ == other@),
    {
        self.database_id == other.database_id && self.table_name.eq(&other.table_name)
    }
}

impl Dup for TableLookupKey {
    fn dup(&self) -> (r: Self)
        ensures
            r@ == self@,
    {
        TableLookupKey { database_id: self.database_id, table_name: self.table_name.dup() }
    }
}

// The catalog requests, each mapping one to one to a command plus the
// caller-side existence policy carried by its flag.
pub struct CreateDatabaseReq {
    pub if_not_exists: bool,
    pub db: String,
    pub engine: String,
}

#[derive(Debug, PartialEq, Eq, Structural)]
pub struct CreateDatabaseReply {
    pub database_id: u64,
}

pub struct DropDatabaseReq {
    pub if_exists: bool,
    pub db: String,
}

#[derive(Debug, PartialEq, Eq, Structural)]
pub struct DropDatabaseReply {}

pub struct GetDatabaseReq {
    pub db_name: String,
}

pub struct CreateTableReq {
    pub if_not_exists: bool,
    pub db: String,
    pub table: String,
    pub table_meta: TableMeta,
}

#[derive(Debug, PartialEq, Eq, Structural)]
pub struct CreateTableReply {
    pub table_id: u64,
}

pub struct DropTableReq {
    pub if_exists: bool,
    pub db: String,
    pub table: String,
}

#[derive(Debug, PartialEq, Eq, Structural)]
pub struct DropTableReply {}

pub struct GetTableReq {
    pub db_name: String,
    pub table_name: String,
}

pub struct ListTableReq {
    pub db_name: String,
}

/// A conditional write of the options of a table: applied only where the
/// table's current seq satisfies `seq`. An option mapped to `None` is removed.
pub struct UpsertTableOptionReq {
    pub table_id: u64,
    pub seq: MatchSeq,
    pub options: Vec<(String, Option<String>)>,
}

#[derive(Debug, PartialEq, Eq, Structural)]
pub struct UpsertTableOptionReply {}

/// The image of the option writes of an `UpsertTableOptionReq`.
pub open spec fn spec_option_write(e: (String, Option<String>)) -> (Seq<char>, Option<Seq<char>>) {
    (
        e.0@,
        match e.1 {
            Option::None => None,
            Option::Some(s) => Some(s@),
        },
    )
}

pub open spec fn spec_option_writes(v: Seq<(String, Option<String>)>) -> Seq<
    (Seq<char>, Option<Seq<char>>),
> {
    v.map(|i: int, e: (String, Option<String>)| spec_option_write(e))
}

impl UpsertTableOptionReq {
    pub fn dup_options(&self) -> (r: Vec<(String, Option<String>)>)
        ensures
            spec_option_writes(r@) == spec_option_writes(self.options@),
    {
        let n = self.options.len();
        let mut r: Vec<(String, Option<String>)> = Vec::new();
        let mut i: usize = 0;
        while i < n
            invariant
                i <= n,
                n == self.options@.len(),
                r@.len() == i,
                forall|j: int|
                    0 <= j < i ==> #[trigger] spec_option_write(r@[j]) == spec_option_write(
                        self.options@[j],
                    ),
            decreases n - i,
        {
            let k = self.options[i].0.dup();
            let v = match &self.options[i].1 {
                Option::None => None,
                Option::Some(s) => Some(s.dup()),
            };
            r.push((k, v));
            i = i + 1;
        }
        proof {
            assert(spec_option_writes(r@) =~= spec_option_writes(self.options@));
        }
        r
    }
}

} // verus!
