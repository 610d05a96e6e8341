//! The decisions of one metadata node: how an admin request is routed (serve
//! locally, forward one hop to the leader, or report who the leader is), what
//! the metrics stream says about the leader, and which startup mode a
//! configuration asks for. The surrounding I/O — RPC transport, the consensus
//! engine, timers — performs these decisions; it never makes them.

use vstd::prelude::*;

use crate::cmd::LogEntry;
use crate::dup::dup_vec;
use crate::dup::Dup;
use crate::errors::ErrorCode;
use crate::errors::ErrorCodeG;

verus! {

/// The redirect a non-leader answers a write with: who it believes the leader
/// is, if anyone.
#[derive(Clone, Copy, Debug, PartialEq, Eq, Structural)]
pub struct ForwardToLeader {
    pub leader: Option<u64>,
}

/// A request to join the cluster as a non-voter.
pub struct JoinRequest {
    pub node_id: u64,
    pub address: String,
}

impl Dup for JoinRequest {
    fn dup(&self) -> (r: Self)
        ensures
            r@ == self@,
    {
        let r = JoinRequest { node_id: self.node_id, address: self.address.dup() };
        proof {
            assert(r@ =~= self@);
        }
        r
    }
}

#[verifier::ext_equal]
pub ghost struct JoinRequestG {
    pub node_id: u64,
    pub address: Seq<char>,
}

impl View for JoinRequest {
    type V = JoinRequestG;

    open spec fn view(&self) -> JoinRequestG {
        JoinRequestG { node_id: self.node_id, address: self.address@ }
    }
}

/// What an admin request asks for.
pub enum AdminRequestInner {
    /// Commit one log entry.
    Write(LogEntry),
    /// Add the sender to the cluster as a non-voter.
    Join(JoinRequest),
}

pub ghost enum AdminRequestInnerG {
    Write(crate::cmd::LogEntryG),
    Join(JoinRequestG),
}

impl View for AdminRequestInner {
    type V = AdminRequestInnerG;

    open spec fn view(&self) -> AdminRequestInnerG {
        match self {
            AdminRequestInner::Write(e) => AdminRequestInnerG::Write(e@),
            AdminRequestInner::Join(j) => AdminRequestInnerG::Join(j@),
        }
    }
}

impl Dup for AdminRequestInner {
    fn dup(&self) -> (r: Self)
        ensures
            r@ == self@,
    {
        match self {
            AdminRequestInner::Write(e) => AdminRequestInner::Write(e.dup()),
            AdminRequestInner::Join(j) => AdminRequestInner::Join(j.dup()),
        }
    }
}

/// An admin request, with the one-hop forwarding permission it carries.
pub struct AdminRequest {
    /// Whether a non-leader receiving this request may forward it. A forwarded
    /// copy always carries `false`, so a request hops at most once.
    pub forward_to_leader: bool,
    pub req: AdminRequestInner,
}

#[verifier::ext_equal]
pub ghost struct AdminRequestG {
    pub forward_to_leader: bool,
    pub req: AdminRequestInnerG,
}

impl View for AdminRequest {
    type V = AdminRequestG;

    open spec fn view(&self) -> AdminRequestG {
        AdminRequestG { forward_to_leader: self.forward_to_leader, req: self.req@ }
    }
}

impl AdminRequest {
    pub fn set_forward(&mut self, allow: bool)
        ensures
            final(self)@ == (AdminRequestG { forward_to_leader: allow, req: old(self)@.req }),
    {
        self.forward_to_leader = allow;
        proof {
            assert(self@ =~= AdminRequestG { forward_to_leader: allow, req: old(self)@.req });
        }
    }
}

/// Where an admin request goes from the node that received it.
pub enum RouteAction {
    /// This node believes it is the leader: serve the request here.
    HandleLocally(AdminRequest),
    /// Forward one hop to the believed leader; the forwarded copy has
    /// forwarding disabled, so two nodes that disagree about the leader cannot
    /// bounce a request between them forever.
    Forward(u64, AdminRequest),
    /// Not the leader, and the request may not be forwarded: report the
    /// believed leader back to the caller.
    Reject(ForwardToLeader),
}

/// Route an admin request: the decision `handle_admin_req` makes before any
/// I/O happens.
pub fn route_admin_req(self_id: u64, current_leader: Option<u64>, req: AdminRequest) -> (r:
    RouteAction)
    ensures
        current_leader == Some(self_id) ==> (r matches RouteAction::HandleLocally(q) && q@
            == req@),
        current_leader != Some(self_id) && !req.forward_to_leader ==> r
            == RouteAction::Reject(ForwardToLeader { leader: current_leader }),
        match current_leader {
            Option::Some(l) => l != self_id && req.forward_to_leader ==> (r matches
                RouteAction::Forward(to, q) && to == l && q@ == (AdminRequestG {
                forward_to_leader: false,
                req: req@.req,
            })),
            Option::None => req.forward_to_leader ==> r == RouteAction::Reject(
                ForwardToLeader { leader: None },
            ),
        },
{
    match current_leader {
        Option::Some(l) => {
            if l == self_id {
                RouteAction::HandleLocally(req)
            } else if req.forward_to_leader {
                let mut fwd = req;
                fwd.set_forward(false);
                RouteAction::Forward(l, fwd)
            } else {
                RouteAction::Reject(ForwardToLeader { leader: Some(l) })
            }
        },
        Option::None => RouteAction::Reject(ForwardToLeader { leader: None }),
    }
}

/// What one observation of the metrics stream tells `get_leader`.
#[derive(Clone, Copy, Debug, PartialEq, Eq, Structural)]
pub enum LeaderPoll {
    /// A leader is known: the fast path returns it.
    Known(u64),
    /// No leader yet and the stream is open: wait for the next change.
    WaitMore,
    /// The stream is closed: the node is shutting down.
    Shutdown,
}

/// Interpret the latest metrics: the step the `get_leader` wait loop repeats
/// at each suspension point.
pub fn poll_leader(current_leader: Option<u64>, channel_closed: bool) -> (r: LeaderPoll)
    ensures
        current_leader matches Some(l) ==> r == LeaderPoll::Known(l),
        current_leader is None && !channel_closed ==> r == LeaderPoll::WaitMore,
        current_leader is None && channel_closed ==> r == LeaderPoll::Shutdown,
{
    match current_leader {
        Option::Some(l) => LeaderPoll::Known(l),
        Option::None => {
            if channel_closed {
                LeaderPoll::Shutdown
            } else {
                LeaderPoll::WaitMore
            }
        },
    }
}

/// The startup configuration of one metadata node.
pub struct RaftConfig {
    /// Initialize a brand-new single-node cluster; fails on existing storage.
    pub boot: bool,
    /// Like `boot`, but re-opening existing storage is tolerated.
    pub single: bool,
    /// Addresses of cluster members to ask for admission as a non-voter;
    /// empty when not joining.
    pub join: Vec<String>,
    pub id: u64,
    pub raft_api_addr: String,
    pub heartbeat_interval: u64,
    pub install_snapshot_timeout: u64,
    pub snapshot_logs_since_last: u64,
    /// Skip fsync on writes; for tests only.
    pub no_sync: bool,
}

/// What `open_create_boot` is told to do for each startup mode.
#[derive(Debug, PartialEq, Eq, Structural)]
pub struct StartPlan {
    /// Try to open existing storage.
    pub open: bool,
    /// Create storage when none can be opened.
    pub create: bool,
    /// Initialize a fresh single-node voter set containing only self.
    pub init_cluster: bool,
}

/// The four mutually exclusive startup modes, decided from the configuration:
/// boot, single, join, and plain open, in that order of precedence.
pub fn plan_start(config: &RaftConfig) -> (r: (StartPlan, Vec<String>))
    ensures
        config.boot ==> r.0 == (StartPlan { open: false, create: true, init_cluster: true }),
        !config.boot && config.single ==> r.0 == (StartPlan {
            open: true,
            create: true,
            init_cluster: true,
        }),
        !config.boot && !config.single && config.join@.len() > 0 ==> r.0 == (StartPlan {
            open: true,
            create: true,
            init_cluster: false,
        }),
        !config.boot && !config.single && config.join@.len() == 0 ==> r.0 == (StartPlan {
            open: true,
            create: false,
            init_cluster: false,
        }),
        r.1@.len() == (if !config.boot && !config.single {
            config.join@.len()
        } else {
            0
        }),
        forall|i: int| 0 <= i < r.1@.len() ==> #[trigger] r.1@[i]@ == config.join@[i]@,
{
    if config.boot {
        (StartPlan { open: false, create: true, init_cluster: true }, Vec::new())
    } else if config.single {
        (StartPlan { open: true, create: true, init_cluster: true }, Vec::new())
    } else if config.join.len() > 0 {
        (StartPlan { open: true, create: true, init_cluster: false }, dup_vec(&config.join))
    } else {
        (StartPlan { open: true, create: false, init_cluster: false }, dup_vec(&config.join))
    }
}

/// Whether this observation of the metrics stream means the node just found
/// itself leader — the moment it must re-register every persisted non-voter
/// with the consensus engine, which does not persist that distinction itself.
pub fn becomes_leader(self_id: u64, observed_leader: Option<u64>) -> (r: bool)
    ensures
        r == (observed_leader == Some(self_id)),
{
    match observed_leader {
        Option::Some(l) => l == self_id,
        Option::None => false,
    }
}

/// Collects the parts of a metadata node before it is brought up; `validate`
/// checks them the way bringing the node up would.
pub struct MetaNodeBuilder {
    node_id: Option<u64>,
    addr: Option<String>,
    monitor_metrics: bool,
    raft_config: ConsensusConfig,
}

impl MetaNodeBuilder {
    pub fn node_id(self, node_id: u64) -> (r: Self)
        ensures
            r.node_id_view() == Some(node_id),
            r.addr_view() == self.addr_view(),
            r.monitor_metrics_view() == self.monitor_metrics_view(),
            r.raft_config_view() == self.raft_config_view(),
    {
        MetaNodeBuilder { node_id: Some(node_id), ..self }
    }

    pub fn addr(self, a: String) -> (r: Self)
        ensures
            r.node_id_view() == self.node_id_view(),
            r.addr_view() == Some(a@),
            r.monitor_metrics_view() == self.monitor_metrics_view(),
            r.raft_config_view() == self.raft_config_view(),
    {
        MetaNodeBuilder { addr: Some(a), ..self }
    }

    pub fn monitor_metrics(self, b: bool) -> (r: Self)
        ensures
            r.node_id_view() == self.node_id_view(),
            r.addr_view() == self.addr_view(),
            r.monitor_metrics_view() == b,
            r.raft_config_view() == self.raft_config_view(),
    {
        MetaNodeBuilder { monitor_metrics: b, ..self }
    }

    pub closed spec fn node_id_view(&self) -> Option<u64> {
        self.node_id
    }

    pub closed spec fn addr_view(&self) -> Option<Seq<char>> {
        match self.addr {
            Option::None => None,
            Option::Some(a) => Some(a@),
        }
    }

    pub closed spec fn monitor_metrics_view(&self) -> bool {
        self.monitor_metrics
    }

    pub closed spec fn raft_config_view(&self) -> ConsensusConfig {
        self.raft_config
    }

    /// What bringing the node up checks first: a node id must have been set;
    /// the listening address may be absent, in which case the caller reads it
    /// from storage. Consumes the builder the way bringing the node up does.
    pub fn validate(self) -> (r: Result<(u64, Option<String>, bool, ConsensusConfig), ErrorCode>)
        ensures
            match self.node_id_view() {
                Option::None => r matches Err(e) && e@ == ErrorCodeG::InvalidConfig(
                    "node_id is not set"@,
                ),
                Option::Some(id) => r matches Ok(parts) && parts.0 == id && (match parts.1 {
                    Option::None => self.addr_view() is None,
                    Option::Some(a) => self.addr_view() == Some(a@),
                }) && parts.2 == self.monitor_metrics_view() && parts.3
                    == self.raft_config_view(),
            },
    {
        let node_id = match self.node_id {
            Option::Some(id) => id,
            Option::None => {
                return Err(ErrorCode::InvalidConfig(String::from_str("node_id is not set")));
            },
        };
        Ok((node_id, self.addr, self.monitor_metrics, self.raft_config))
    }
}

/// Begin assembling a node from its configuration, with metrics monitoring on,
/// as a fresh node comes up.
pub fn builder(config: &RaftConfig) -> (r: MetaNodeBuilder)
    requires
        1 <= config.heartbeat_interval,
        config.heartbeat_interval <= u64::MAX / 12,
    ensures
        r.node_id_view() is None,
        r.addr_view() is None,
        r.monitor_metrics_view() == true,
        r.raft_config_view().heartbeat_interval == config.heartbeat_interval,
        r.raft_config_view().election_timeout_min < r.raft_config_view().election_timeout_max,
{
    MetaNodeBuilder {
        node_id: None,
        addr: None,
        monitor_metrics: true,
        raft_config: new_raft_config(config),
    }
}

/// The timing parameters handed to the consensus engine.
#[derive(Clone, Copy, Debug, PartialEq, Eq, Structural)]
pub struct ConsensusConfig {
    pub heartbeat_interval: u64,
    pub election_timeout_min: u64,
    pub election_timeout_max: u64,
    pub install_snapshot_timeout: u64,
    pub snapshot_logs_since_last: u64,
}

/// Derive the consensus timing from the node configuration: election timeouts
/// are eight to twelve heartbeats, so a live leader is never deposed by an
/// impatient follower.
pub fn new_raft_config(config: &RaftConfig) -> (r: ConsensusConfig)
    requires
        1 <= config.heartbeat_interval,
        config.heartbeat_interval <= u64::MAX / 12,
    ensures
        r.heartbeat_interval == config.heartbeat_interval,
        r.election_timeout_min == config.heartbeat_interval * 8,
        r.election_timeout_max == config.heartbeat_interval * 12,
        r.election_timeout_min < r.election_timeout_max,
        r.install_snapshot_timeout == config.install_snapshot_timeout,
        r.snapshot_logs_since_last == config.snapshot_logs_since_last,
{
    let hb = config.heartbeat_interval;
    ConsensusConfig {
        heartbeat_interval: hb,
        election_timeout_min: hb * 8,
        election_timeout_max: hb * 12,
        install_snapshot_timeout: config.install_snapshot_timeout,
        snapshot_logs_since_last: config.snapshot_logs_since_last,
    }
}

} // verus!
