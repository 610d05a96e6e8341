//! Forwarding, leader changes, and replication across the cluster model.

use databend::change::AppliedState;
use databend::cluster::AdminResponse;
use databend::cluster::MetaCluster;
use databend::cluster::MetaError;
use databend::cmd::Cmd;
use databend::cmd::LogEntry;
use databend::catalog::GetDatabaseReq;
use databend::catalog::ListTableReq;
use databend::alist::AList;
use databend::catalog::TableMeta;
use databend::meta_node::AdminRequest;
use databend::meta_node::AdminRequestInner;
use databend::meta_node::ForwardToLeader;
use databend::meta_node::JoinRequest;

fn write_req(cmd: Cmd, forward: bool) -> AdminRequest {
    AdminRequest { forward_to_leader: forward, req: AdminRequestInner::Write(LogEntry { txid: None, cmd }) }
}

fn create_db_cmd(name: &str) -> Cmd {
    Cmd::CreateDatabase { name: name.to_string(), engine: "default".to_string() }
}

fn create_table_cmd(db: &str, table: &str) -> Cmd {
    Cmd::CreateTable {
        db_name: db.to_string(),
        table_name: table.to_string(),
        table_meta: TableMeta { schema: vec![], engine: "fuse".to_string(), options: AList::new() },
    }
}

#[test]
fn test_write_at_follower_forwards_once_and_matches_leader() {
    let mut c = MetaCluster::boot("127.0.0.1:29000".to_string());
    c.add_replica();
    c.add_replica();

    // Submitted at the leader: no hop.
    let (r0, hops0) = c.handle_admin_req(0, write_req(create_db_cmd("d1"), true));
    assert_eq!(hops0, 0);
    let id_direct = match r0.unwrap() {
        AdminResponse::AppliedState(AppliedState::DatabaseMeta(ch)) => ch.ident.unwrap(),
        _ => panic!("expected a database change"),
    };

    // Submitted at a follower: exactly one hop, and the same kind of answer a
    // direct submission gives.
    let (r1, hops1) = c.handle_admin_req(2, write_req(create_db_cmd("d2"), true));
    assert_eq!(hops1, 1);
    let id_forwarded = match r1.unwrap() {
        AdminResponse::AppliedState(AppliedState::DatabaseMeta(ch)) => ch.ident.unwrap(),
        _ => panic!("expected a database change"),
    };
    assert_eq!(id_forwarded, id_direct + 1);

    // The committed write is visible on every replica.
    for i in 0..c.node_count() {
        let info = c
            .node_state(i)
            .get_database(&GetDatabaseReq { db_name: "d2".to_string() })
            .unwrap();
        assert_eq!(info.database_id, id_forwarded);
    }
}

#[test]
fn test_write_without_forwarding_reports_leader() {
    let mut c = MetaCluster::boot("127.0.0.1:29000".to_string());
    c.add_replica();

    let (r, hops) = c.handle_admin_req(1, write_req(create_db_cmd("d1"), false));
    assert_eq!(hops, 0);
    match r.unwrap_err() {
        MetaError::ForwardToLeader(ForwardToLeader { leader }) => assert_eq!(leader, Some(0)),
        _ => panic!("expected a redirect"),
    }
    // Nothing was committed.
    assert!(c.node_state(0).get_database(&GetDatabaseReq { db_name: "d1".to_string() }).is_err());
}

#[test]
fn test_unreachable_leader_fails_with_connection_error() {
    let mut c = MetaCluster::boot("127.0.0.1:29000".to_string());
    c.add_replica();
    // The metrics stream may lag: the believed leader is gone.
    c.change_leader(17);

    let (r, _hops) = c.handle_admin_req(1, write_req(create_db_cmd("d1"), true));
    match r.unwrap_err() {
        MetaError::ConnectionError(id) => assert_eq!(id, 17),
        _ => panic!("expected a connection-class error, not a hang or a silent retry"),
    }
}

#[test]
fn test_leader_change_loses_no_committed_table() {
    let mut c = MetaCluster::boot("127.0.0.1:29000".to_string());
    c.add_replica();
    c.add_replica();

    c.handle_admin_req(0, write_req(create_db_cmd("d1"), true)).0.unwrap();
    c.handle_admin_req(0, write_req(create_table_cmd("d1", "t1"), true)).0.unwrap();
    c.handle_admin_req(1, write_req(create_table_cmd("d1", "t2"), true)).0.unwrap();

    // A leader change: elections move the crown, not the data.
    c.change_leader(2);
    assert_eq!(c.current_leader(), Some(2));

    let tables = c
        .node_state(2)
        .list_tables(&ListTableReq { db_name: "d1".to_string() })
        .unwrap();
    let names: Vec<String> = tables.iter().map(|t| t.name.clone()).collect();
    assert_eq!(names, vec!["t1".to_string(), "t2".to_string()]);
}

#[test]
fn test_join_registers_node_and_non_voter() {
    let mut c = MetaCluster::boot("127.0.0.1:29000".to_string());
    c.add_replica();

    let join = AdminRequest {
        forward_to_leader: true,
        req: AdminRequestInner::Join(JoinRequest { node_id: 1, address: "127.0.0.1:29001".to_string() }),
    };
    let (r, hops) = c.handle_admin_req(1, join);
    assert_eq!(hops, 1);
    match r.unwrap() {
        AdminResponse::Joined => {}
        _ => panic!("expected admission"),
    }

    // Persisted in the node registry of every replica, and recorded as a
    // non-voter for the leader to re-register after a restart.
    for i in 0..c.node_count() {
        let node = c.node_state(i).get_node(1).unwrap();
        assert_eq!(node.address, "127.0.0.1:29001".to_string());
    }
    assert_eq!(c.list_non_voters(), vec![1]);

    // Joining twice records the non-voter once.
    let join_again = AdminRequest {
        forward_to_leader: true,
        req: AdminRequestInner::Join(JoinRequest { node_id: 1, address: "127.0.0.1:29001".to_string() }),
    };
    c.handle_admin_req(0, join_again).0.unwrap();
    assert_eq!(c.list_non_voters(), vec![1]);
}
