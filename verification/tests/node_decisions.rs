//! The routing, leader-poll, and startup decisions of one node.

use databend::cmd::Cmd;
use databend::cmd::LogEntry;
use databend::match_seq::MatchSeq;
use databend::errors::ErrorCode;
use databend::meta_node::becomes_leader;
use databend::meta_node::builder;
use databend::meta_node::plan_start;
use databend::meta_node::new_raft_config;
use databend::meta_node::poll_leader;
use databend::meta_node::route_admin_req;
use databend::meta_node::AdminRequest;
use databend::meta_node::AdminRequestInner;
use databend::meta_node::ForwardToLeader;
use databend::meta_node::LeaderPoll;
use databend::meta_node::RaftConfig;
use databend::meta_node::RouteAction;
use databend::seqv::SeqV;

fn a_request(forward: bool) -> AdminRequest {
    AdminRequest {
        forward_to_leader: forward,
        req: AdminRequestInner::Write(LogEntry {
            txid: None,
            cmd: Cmd::DropDatabase { name: "d".to_string() },
        }),
    }
}

fn config(boot: bool, single: bool, join: Vec<String>) -> RaftConfig {
    RaftConfig {
        boot,
        single,
        join,
        id: 0,
        raft_api_addr: "127.0.0.1:29000".to_string(),
        heartbeat_interval: 500,
        install_snapshot_timeout: 4000,
        snapshot_logs_since_last: 1024,
        no_sync: false,
    }
}

#[test]
fn test_route_on_leader_handles_locally() {
    match route_admin_req(3, Some(3), a_request(true)) {
        RouteAction::HandleLocally(q) => assert!(q.forward_to_leader),
        _ => panic!("the leader serves its own requests"),
    }
}

#[test]
fn test_route_forwards_once_with_forwarding_disabled() {
    match route_admin_req(1, Some(3), a_request(true)) {
        RouteAction::Forward(to, q) => {
            assert_eq!(to, 3);
            // The forwarded copy may not be forwarded again.
            assert!(!q.forward_to_leader);
        }
        _ => panic!("a follower forwards when permitted"),
    }
}

#[test]
fn test_route_rejects_when_forwarding_forbidden_or_no_leader() {
    match route_admin_req(1, Some(3), a_request(false)) {
        RouteAction::Reject(f) => assert_eq!(f, ForwardToLeader { leader: Some(3) }),
        _ => panic!("a follower redirects when forwarding is off"),
    }
    match route_admin_req(1, None, a_request(true)) {
        RouteAction::Reject(f) => assert_eq!(f, ForwardToLeader { leader: None }),
        _ => panic!("without a leader there is nobody to forward to"),
    }
}

#[test]
fn test_poll_leader() {
    assert_eq!(poll_leader(Some(7), false), LeaderPoll::Known(7));
    assert_eq!(poll_leader(Some(7), true), LeaderPoll::Known(7));
    assert_eq!(poll_leader(None, false), LeaderPoll::WaitMore);
    assert_eq!(poll_leader(None, true), LeaderPoll::Shutdown);
}

#[test]
fn test_plan_start_four_modes() {
    let (p, addrs) = plan_start(&config(true, false, vec![]));
    assert!(!p.open && p.create && p.init_cluster && addrs.is_empty());

    let (p, addrs) = plan_start(&config(false, true, vec![]));
    assert!(p.open && p.create && p.init_cluster && addrs.is_empty());

    let seeds = vec!["127.0.0.1:29001".to_string(), "127.0.0.1:29002".to_string()];
    let (p, addrs) = plan_start(&config(false, false, seeds.clone()));
    assert!(p.open && p.create && !p.init_cluster);
    assert_eq!(addrs, seeds);

    let (p, addrs) = plan_start(&config(false, false, vec![]));
    assert!(p.open && !p.create && !p.init_cluster && addrs.is_empty());
}

#[test]
fn test_new_raft_config_timeouts() {
    let c = new_raft_config(&config(false, false, vec![]));
    assert_eq!(c.heartbeat_interval, 500);
    assert_eq!(c.election_timeout_min, 4000);
    assert_eq!(c.election_timeout_max, 6000);
    assert!(c.election_timeout_min < c.election_timeout_max);
    assert_eq!(c.install_snapshot_timeout, 4000);
    assert_eq!(c.snapshot_logs_since_last, 1024);
}

#[test]
fn test_match_seq_and_seqv() {
    let sv = SeqV::new(3, b"v".to_vec());
    assert_eq!(sv.seq, 3);
    assert!(MatchSeq::Any.match_seq(&Some(SeqV::new(3, 0u8))));
    assert!(MatchSeq::Any.match_seq(&None::<SeqV<u8>>));
    assert!(MatchSeq::Exact(3).matches(3));
    assert!(!MatchSeq::Exact(3).matches(4));
    assert!(MatchSeq::Exact(0).match_seq(&None::<SeqV<u8>>));
    assert!(MatchSeq::GE(3).matches(5));
    assert!(!MatchSeq::GE(3).matches(2));
}

#[test]
fn test_becomes_leader() {
    assert!(becomes_leader(2, Some(2)));
    assert!(!becomes_leader(2, Some(3)));
    assert!(!becomes_leader(2, None));
}

#[test]
fn test_builder_validate() {
    let conf = config(false, false, vec![]);

    // A node id must have been set.
    let b = builder(&conf);
    match b.validate() {
        Err(e) => assert_eq!(e, ErrorCode::InvalidConfig("node_id is not set".to_string())),
        Ok(_) => panic!("a builder without a node id must not validate"),
    }

    // With an id, the parts come back as set; an absent address stays absent
    // for the caller to read from storage.
    let b = builder(&conf).node_id(7).monitor_metrics(false);
    let (id, addr, monitor, rc) = b.validate().unwrap();
    assert_eq!(id, 7);
    assert_eq!(addr, None);
    assert!(!monitor);
    assert_eq!(rc, new_raft_config(&conf));

    let b = builder(&conf).node_id(7).addr("127.0.0.1:29007".to_string());
    let (_, addr, monitor, _) = b.validate().unwrap();
    assert_eq!(addr, Some("127.0.0.1:29007".to_string()));
    assert!(monitor);
}
