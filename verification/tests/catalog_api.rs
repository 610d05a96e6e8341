//! The catalog API over the state machine: existence policy, version
//! conflicts, and replay determinism.

use databend::alist::AList;
use databend::catalog::CreateDatabaseReq;
use databend::catalog::CreateTableReq;
use databend::catalog::DropDatabaseReq;
use databend::catalog::DropTableReq;
use databend::catalog::GetDatabaseReq;
use databend::catalog::GetTableReq;
use databend::catalog::ListTableReq;
use databend::catalog::TableMeta;
use databend::catalog::UpsertTableOptionReq;
use databend::catalog::Node;
use databend::change::AppliedState;
use databend::cmd::Cmd;
use databend::cmd::LogEntry;
use databend::data_field::DataField;
use databend::data_type::DataType;
use databend::errors::ErrorCode;
use databend::match_seq::MatchSeq;
use databend::state_machine::StateMachine;

fn meta() -> TableMeta {
    TableMeta {
        schema: vec![
            DataField::new("number", DataType::UInt64, false),
            DataField::new("name", DataType::String, true),
        ],
        engine: "fuse".to_string(),
        options: AList::new(),
    }
}

fn create_db(sm: &mut StateMachine, name: &str, if_not_exists: bool) -> Result<u64, ErrorCode> {
    sm.create_database(CreateDatabaseReq {
        if_not_exists,
        db: name.to_string(),
        engine: "default".to_string(),
    })
    .map(|r| r.database_id)
}

fn create_table(
    sm: &mut StateMachine,
    db: &str,
    table: &str,
    if_not_exists: bool,
) -> Result<u64, ErrorCode> {
    sm.create_table(CreateTableReq {
        if_not_exists,
        db: db.to_string(),
        table: table.to_string(),
        table_meta: meta(),
    })
    .map(|r| r.table_id)
}

#[test]
fn test_create_database_twice_reports_already_exists() {
    let mut sm = StateMachine::new();
    let id1 = create_db(&mut sm, "d1", false).unwrap();
    let before = sm.last_seq();

    // Second creation without the flag: an error, and nothing moves.
    let err = create_db(&mut sm, "d1", false).unwrap_err();
    assert_eq!(err, ErrorCode::DatabaseAlreadyExists("d1".to_string()));
    assert_eq!(sm.last_seq(), before);
    let info = sm.get_database(&GetDatabaseReq { db_name: "d1".to_string() }).unwrap();
    assert_eq!(info.database_id, id1);
    assert_eq!(info.meta.engine, "default".to_string());

    // With the flag: success reporting the existing id, still nothing moves.
    let id2 = create_db(&mut sm, "d1", true).unwrap();
    assert_eq!(id2, id1);
    assert_eq!(sm.last_seq(), before);
}

#[test]
fn test_drop_database_missing() {
    let mut sm = StateMachine::new();
    let err = sm
        .drop_database(DropDatabaseReq { if_exists: false, db: "missing".to_string() })
        .unwrap_err();
    assert_eq!(err, ErrorCode::UnknownDatabase("missing".to_string()));

    // With the flag the no-op is success.
    sm.drop_database(DropDatabaseReq { if_exists: true, db: "missing".to_string() }).unwrap();

    // A present database drops, and is gone afterwards.
    create_db(&mut sm, "d1", false).unwrap();
    sm.drop_database(DropDatabaseReq { if_exists: false, db: "d1".to_string() }).unwrap();
    let err = sm.get_database(&GetDatabaseReq { db_name: "d1".to_string() }).unwrap_err();
    assert_eq!(err, ErrorCode::UnknownDatabase("d1".to_string()));
}

#[test]
fn test_create_table_policy_and_ids() {
    let mut sm = StateMachine::new();

    // No database: the command itself fails.
    let err = create_table(&mut sm, "nodb", "t1", false).unwrap_err();
    assert_eq!(err, ErrorCode::UnknownDatabase("nodb".to_string()));

    create_db(&mut sm, "d1", false).unwrap();
    let t1 = create_table(&mut sm, "d1", "t1", false).unwrap();

    let err = create_table(&mut sm, "d1", "t1", false).unwrap_err();
    assert_eq!(err, ErrorCode::TableAlreadyExists("t1".to_string()));
    let again = create_table(&mut sm, "d1", "t1", true).unwrap();
    assert_eq!(again, t1);

    // A second table gets a fresh id; the allocation sequence never reuses one.
    let t2 = create_table(&mut sm, "d1", "t2", false).unwrap();
    assert!(t2 > t1);

    let (ident, m) = sm.get_table_by_id(t1).unwrap();
    assert_eq!(ident.table_id, t1);
    assert_eq!(m.engine, "fuse".to_string());
}

#[test]
fn test_upsert_table_option_version_conflict() {
    let mut sm = StateMachine::new();
    create_db(&mut sm, "d1", false).unwrap();
    let tid = create_table(&mut sm, "d1", "t1", false).unwrap();
    let req = GetTableReq { db_name: "d1".to_string(), table_name: "t1".to_string() };
    let cur = sm.get_table(&req).unwrap().ident.version;

    // A stale seq is a version conflict carrying both versions; nothing moves.
    let stale = MatchSeq::Exact(cur + 100);
    let err = sm
        .upsert_table_option(UpsertTableOptionReq {
            table_id: tid,
            seq: stale,
            options: vec![("k".to_string(), Some("v".to_string()))],
        })
        .unwrap_err();
    assert_eq!(err, ErrorCode::TableVersionMismatch(stale, cur));
    assert_eq!(sm.get_table(&req).unwrap().ident.version, cur);

    // The freshly read seq succeeds and strictly increments the version.
    sm.upsert_table_option(UpsertTableOptionReq {
        table_id: tid,
        seq: MatchSeq::Exact(cur),
        options: vec![("k".to_string(), Some("v".to_string()))],
    })
    .unwrap();
    let info = sm.get_table(&req).unwrap();
    assert!(info.ident.version > cur);
    assert_eq!(info.meta.options.get(&"k".to_string()), Some(&"v".to_string()));

    // Removing an option and unknown table ids.
    let cur2 = info.ident.version;
    sm.upsert_table_option(UpsertTableOptionReq {
        table_id: tid,
        seq: MatchSeq::GE(cur2),
        options: vec![("k".to_string(), None)],
    })
    .unwrap();
    let info = sm.get_table(&req).unwrap();
    assert_eq!(info.meta.options.get(&"k".to_string()), None);

    let err = sm
        .upsert_table_option(UpsertTableOptionReq {
            table_id: 9999,
            seq: MatchSeq::Any,
            options: vec![],
        })
        .unwrap_err();
    assert_eq!(err, ErrorCode::UnknownTableId(9999));
}

#[test]
fn test_drop_table_policy() {
    let mut sm = StateMachine::new();
    create_db(&mut sm, "d1", false).unwrap();
    create_table(&mut sm, "d1", "t1", false).unwrap();

    let err = sm
        .drop_table(DropTableReq {
            if_exists: false,
            db: "d1".to_string(),
            table: "missing".to_string(),
        })
        .unwrap_err();
    assert_eq!(err, ErrorCode::UnknownTable("missing".to_string()));

    sm.drop_table(DropTableReq { if_exists: false, db: "d1".to_string(), table: "t1".to_string() })
        .unwrap();
    let err = sm
        .get_table(&GetTableReq { db_name: "d1".to_string(), table_name: "t1".to_string() })
        .unwrap_err();
    assert_eq!(err, ErrorCode::UnknownTable("t1".to_string()));
}

#[test]
fn test_list_tables_and_databases() {
    let mut sm = StateMachine::new();
    create_db(&mut sm, "d1", false).unwrap();
    create_db(&mut sm, "d2", false).unwrap();
    create_table(&mut sm, "d1", "t1", false).unwrap();
    create_table(&mut sm, "d2", "other", false).unwrap();
    create_table(&mut sm, "d1", "t2", false).unwrap();

    let dbs = sm.list_databases().unwrap();
    let names: Vec<String> = dbs.iter().map(|d| d.db.clone()).collect();
    assert_eq!(names, vec!["d1".to_string(), "d2".to_string()]);

    let tables = sm.list_tables(&ListTableReq { db_name: "d1".to_string() }).unwrap();
    let names: Vec<String> = tables.iter().map(|t| t.name.clone()).collect();
    assert_eq!(names, vec!["t1".to_string(), "t2".to_string()]);
    assert_eq!(tables[0].desc, "'d1'.'t1'".to_string());

    let err = sm.list_tables(&ListTableReq { db_name: "nodb".to_string() }).unwrap_err();
    assert_eq!(err, ErrorCode::UnknownDatabase("nodb".to_string()));
}

#[test]
fn test_replay_is_deterministic() {
    let log = vec![
        LogEntry {
            txid: None,
            cmd: Cmd::CreateDatabase { name: "d1".to_string(), engine: "default".to_string() },
        },
        LogEntry {
            txid: None,
            cmd: Cmd::CreateTable {
                db_name: "d1".to_string(),
                table_name: "t1".to_string(),
                table_meta: meta(),
            },
        },
        LogEntry { txid: None, cmd: Cmd::DropTable { db_name: "d1".to_string(), table_name: "t1".to_string() } },
        LogEntry {
            txid: None,
            cmd: Cmd::CreateTable {
                db_name: "d1".to_string(),
                table_name: "t2".to_string(),
                table_meta: meta(),
            },
        },
    ];

    let mut a = StateMachine::new();
    let mut b = StateMachine::new();
    a.apply_entries(&log);
    b.apply_entries(&log);

    // Identical observations on both replicas, table ids and versions included.
    assert_eq!(a.last_seq(), b.last_seq());
    let ta = a.list_tables(&ListTableReq { db_name: "d1".to_string() }).unwrap();
    let tb = b.list_tables(&ListTableReq { db_name: "d1".to_string() }).unwrap();
    assert_eq!(ta.len(), tb.len());
    for (x, y) in ta.iter().zip(tb.iter()) {
        assert_eq!(x.ident, y.ident);
        assert_eq!(x.name, y.name);
        assert_eq!(x.desc, y.desc);
        assert_eq!(x.meta.engine, y.meta.engine);
    }
}

#[test]
fn test_add_node_is_idempotent_observable() {
    let mut sm = StateMachine::new();
    let cmd = Cmd::AddNode {
        node_id: 5,
        node: Node { name: "n5".to_string(), address: "127.0.0.1:29005".to_string() },
    };
    let first = sm.apply_cmd(&cmd).unwrap();
    assert!(first.changed());

    let cmd = Cmd::AddNode {
        node_id: 5,
        node: Node { name: "other".to_string(), address: "elsewhere".to_string() },
    };
    let second = sm.apply_cmd(&cmd).unwrap();
    assert!(!second.changed());
    match second {
        AppliedState::Node(ch) => {
            let (prev, result) = ch.unpack();
            // The registered node stays as first written.
            assert_eq!(prev.as_ref().unwrap().data.address, "127.0.0.1:29005".to_string());
            assert_eq!(prev.unwrap().seq, result.unwrap().seq);
        }
        _ => panic!("expected a node change"),
    }
    assert_eq!(sm.get_node(5).unwrap().name, "n5".to_string());
    assert_eq!(sm.get_nodes().len(), 1);
}
