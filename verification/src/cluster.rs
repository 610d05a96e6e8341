//! A cluster of replicas under one committed log. The consensus engine is the
//! external collaborator that orders proposals and replicates them; this model
//! takes its two guarantees as given — a committed entry is applied on every
//! replica in log order, and a new leader reflects every previously committed
//! entry before it accepts proposals — and carries them as one invariant: all
//! replicas hold the identical store image. On that invariant the write path
//! (serve locally, forward one hop, or redirect) behaves the same whichever
//! node a client happens to reach.

use vstd::prelude::*;

use crate::catalog::Node;
use crate::change::AppliedState;
use crate::change::AppliedStateG;
use crate::cmd::Cmd;
use crate::cmd::LogEntry;
use crate::dup::Dup;
use crate::errors::ErrorCode;
use crate::errors::ErrorCodeG;
use crate::meta_node::route_admin_req;
use crate::meta_node::AdminRequest;
use crate::meta_node::AdminRequestInner;
use crate::meta_node::AdminRequestInnerG;
use crate::meta_node::ForwardToLeader;
use crate::meta_node::RouteAction;
use crate::state_machine::sm_apply;
use crate::state_machine::sm_wf;
use crate::state_machine::spec_list_tables;
use crate::state_machine::SmG;
use crate::state_machine::StateMachine;

verus! {

/// The errors of the write path, beyond what a command itself reports.
#[derive(Debug)]
pub enum MetaError {
    /// Not the leader; the caller may retry against the carried leader.
    ForwardToLeader(ForwardToLeader),
    /// The believed leader could not be reached; carries its id. Reported to
    /// the caller, never silently retried.
    ConnectionError(u64),
    /// The command was committed and applied, and reported this error.
    App(ErrorCode),
}

pub ghost enum MetaErrorG {
    ForwardToLeader(ForwardToLeader),
    ConnectionError(u64),
    App(ErrorCodeG),
}

impl View for MetaError {
    type V = MetaErrorG;

    open spec fn view(&self) -> MetaErrorG {
        match self {
            MetaError::ForwardToLeader(f) => MetaErrorG::ForwardToLeader(*f),
            MetaError::ConnectionError(id) => MetaErrorG::ConnectionError(*id),
            MetaError::App(e) => MetaErrorG::App(e@),
        }
    }
}

/// What a served admin request answers.
#[derive(Debug)]
pub enum AdminResponse {
    /// The change a committed write produced.
    AppliedState(AppliedState),
    /// The sender was admitted as a non-voter.
    Joined,
}

pub ghost enum AdminResponseG {
    AppliedState(AppliedStateG),
    Joined,
}

impl View for AdminResponse {
    type V = AdminResponseG;

    open spec fn view(&self) -> AdminResponseG {
        match self {
            AdminResponse::AppliedState(a) => AdminResponseG::AppliedState(a@),
            AdminResponse::Joined => AdminResponseG::Joined,
        }
    }
}

/// The mathematical image of the cluster.
#[verifier::ext_equal]
pub ghost struct ClusterG {
    pub nodes: Seq<SmG>,
    pub leader: Option<u64>,
    pub non_voters: Seq<u64>,
}

/// All replicas well-formed and identical: the committed log has been applied
/// everywhere in the same order.
pub open spec fn cluster_wf(c: ClusterG) -> bool {
    &&& c.nodes.len() >= 1
    &&& forall|i: int| 0 <= i < c.nodes.len() ==> sm_wf(#[trigger] c.nodes[i])
    &&& forall|i: int| 0 <= i < c.nodes.len() ==> #[trigger] c.nodes[i] == c.nodes[0]
}

/// The store image every replica holds.
pub open spec fn cluster_state(c: ClusterG) -> SmG {
    c.nodes[0]
}

/// What committing one entry does to every replica, and what it answers:
/// a function of the shared store image and the entry alone — no node
/// identity appears in it.
pub open spec fn cluster_commit(c: ClusterG, cmd: crate::cmd::CmdG) -> (
    ClusterG,
    Result<AppliedStateG, ErrorCodeG>,
) {
    let (s2, r) = sm_apply(cluster_state(c), cmd);
    (
        ClusterG {
            nodes: Seq::new(c.nodes.len(), |i: int| s2),
            leader: c.leader,
            non_voters: c.non_voters,
        },
        r,
    )
}

/// A cluster of metadata replicas; the leader is whichever node the metrics
/// stream last reported, and may be stale or point at an unreachable node.
pub struct MetaCluster {
    nodes: Vec<StateMachine>,
    leader: Option<u64>,
    non_voters: Vec<u64>,
}

impl View for MetaCluster {
    type V = ClusterG;

    closed spec fn view(&self) -> ClusterG {
        ClusterG {
            nodes: self.nodes@.map(|i: int, n: StateMachine| n@),
            leader: self.leader,
            non_voters: self.non_voters@,
        }
    }
}

impl MetaCluster {
    pub open spec fn wf(&self) -> bool {
        cluster_wf(self@)
    }

    /// Boot the first node of a new cluster: a fresh store, itself as leader,
    /// and itself committed into the node registry.
    pub fn boot(addr: String) -> (r: Self)
        ensures
            r.wf(),
            r@.leader == Some(0u64),
            r@.nodes.len() == 1,
            cluster_state(r@) == sm_apply(
                crate::state_machine::sm_init(),
                crate::cmd::CmdG::AddNode {
                    node_id: 0,
                    node: crate::catalog::NodeG { name: ""@, address: addr@ },
                },
            ).0,
    {
        let mut sm = StateMachine::new();
        let node = Node { name: String::new(), address: addr };
        let _ = sm.apply_cmd(&Cmd::AddNode { node_id: 0, node });
        let mut nodes: Vec<StateMachine> = Vec::new();
        nodes.push(sm);
        let r = MetaCluster { nodes, leader: Some(0), non_voters: Vec::new() };
        proof {
            reveal_strlit("");
            assert(""@ =~= Seq::<char>::empty());
            assert(r@.non_voters =~= Seq::<u64>::empty());
        }
        r
    }

    pub fn node_count(&self) -> (r: usize)
        ensures
            r == self@.nodes.len(),
    {
        self.nodes.len()
    }

    pub fn current_leader(&self) -> (r: Option<u64>)
        ensures
            r == self@.leader,
    {
        self.leader
    }

    /// A local, possibly stale read on one replica.
    pub fn node_state(&self, at: usize) -> (r: &StateMachine)
        requires
            at < self@.nodes.len(),
        ensures
            r@ == self@.nodes[at as int],
    {
        &self.nodes[at]
    }

    /// A leader change, as an election would produce it: only the believed
    /// leader moves; no replica's state is touched, so nothing committed is
    /// lost.
    pub fn change_leader(&mut self, to: u64)
        ensures
            final(self)@ == (ClusterG { leader: Some(to), ..old(self)@ }),
    {
        self.leader = Some(to);
        proof {
            assert(self@ =~= ClusterG { leader: Some(to), ..old(self)@ });
        }
    }

    /// Add a fresh replica, brought up to date by snapshot before it serves:
    /// it starts as an exact copy of the shared store image.
    pub fn add_replica(&mut self) -> (id: u64)
        requires
            old(self).wf(),
            old(self)@.nodes.len() < u64::MAX,
        ensures
            final(self).wf(),
            id == old(self)@.nodes.len(),
            final(self)@.nodes.len() == old(self)@.nodes.len() + 1,
            cluster_state(final(self)@) == cluster_state(old(self)@),
            final(self)@.leader == old(self)@.leader,
    {
        let id = self.nodes.len() as u64;
        let copy = self.nodes[0].dup();
        let ghost cv = copy@;
        self.nodes.push(copy);
        proof {
            assert(self@.nodes =~= old(self)@.nodes.push(cv));
            assert forall|i: int|
                0 <= i < self@.nodes.len() implies #[trigger] self@.nodes[i]
                == self@.nodes[0] by {
                assert(old(self)@.nodes[0] == cluster_state(old(self)@));
                if i < old(self)@.nodes.len() {
                    assert(old(self)@.nodes[i] == old(self)@.nodes[0]);
                }
            }
        }
        id
    }

    /// Commit one entry: the consensus engine replicates it and every replica
    /// applies it in log order. Answers what the state machine reported.
    fn commit(&mut self, entry: &LogEntry) -> (r: Result<AppliedState, ErrorCode>)
        requires
            old(self).wf(),
            cluster_state(old(self)@).seq <= u64::MAX - 2,
        ensures
            final(self).wf(),
            final(self)@ == cluster_commit(old(self)@, entry@.cmd).0,
            (match r {
                Ok(a) => Ok(a@),
                Err(e) => Err(e@),
            }) == cluster_commit(old(self)@, entry@.cmd).1,
    {
        let n = self.nodes.len();
        let mut first: Option<Result<AppliedState, ErrorCode>> = None;
        let mut i: usize = 0;
        while i < n
            invariant
                1 <= n,
                i <= n,
                n == self@.nodes.len(),
                old(self).wf(),
                cluster_state(old(self)@).seq <= u64::MAX - 2,
                self@.leader == old(self)@.leader,
                self@.non_voters == old(self)@.non_voters,
                forall|j: int|
                    i <= j < n ==> #[trigger] self@.nodes[j] == cluster_state(old(self)@),
                forall|j: int|
                    0 <= j < i ==> #[trigger] self@.nodes[j] == sm_apply(
                        cluster_state(old(self)@),
                        entry@.cmd,
                    ).0,
                i > 0 ==> (first matches Some(r0) && (match r0 {
                    Ok(a) => Ok::<AppliedStateG, ErrorCodeG>(a@),
                    Err(e) => Err::<AppliedStateG, ErrorCodeG>(e@),
                }) == sm_apply(cluster_state(old(self)@), entry@.cmd).1),
                i == 0 ==> first is None,
            decreases n - i,
        {
            proof {
                assert(sm_wf(cluster_state(old(self)@)));
                assert(self@.nodes[i as int] == cluster_state(old(self)@));
            }
            let ghost prev = self@.nodes;
            let res = self.nodes[i].apply_entry(entry);
            proof {
                assert(self@.nodes =~= prev.update(
                    i as int,
                    sm_apply(cluster_state(old(self)@), entry@.cmd).0,
                ));
            }
            if i == 0 {
                first = Some(res);
            }
            i = i + 1;
        }
        let r = match first {
            Option::Some(r0) => r0,
            Option::None => {
                proof {
                    assert(false);
                }
                Err(ErrorCode::UnknownNode(0))
            },
        };
        proof {
            assert(self@.nodes =~= Seq::new(
                old(self)@.nodes.len(),
                |j: int| sm_apply(cluster_state(old(self)@), entry@.cmd).0,
            ));
            assert(self@ =~= cluster_commit(old(self)@, entry@.cmd).0);
            crate::state_machine::lemma_sm_apply_wf(cluster_state(old(self)@), entry@.cmd);
            assert(cluster_wf(self@));
        }
        r
    }

    /// Serve the request on the leader: commit a write, or admit a joiner as a
    /// non-voter and persist it in the node registry.
    fn leader_do(&mut self, req: AdminRequestInner) -> (r: Result<AdminResponse, MetaError>)
        requires
            old(self).wf(),
            cluster_state(old(self)@).seq <= u64::MAX - 2,
        ensures
            final(self).wf(),
            final(self)@.leader == old(self)@.leader,
            spec_leader_do(old(self)@, req@) == (final(self)@, match r {
                Ok(a) => Ok::<AdminResponseG, MetaErrorG>(a@),
                Err(e) => Err::<AdminResponseG, MetaErrorG>(e@),
            }),
    {
        match req {
            AdminRequestInner::Write(entry) => {
                let res = self.commit(&entry);
                match res {
                    Ok(a) => Ok(AdminResponse::AppliedState(a)),
                    Err(e) => Err(MetaError::App(e)),
                }
            },
            AdminRequestInner::Join(jr) => {
                proof {
                    reveal_strlit("");
                }
                let empty_name = String::new();
                proof {
                    assert(empty_name@ =~= ""@);
                }
                let entry = LogEntry {
                    txid: None,
                    cmd: Cmd::AddNode {
                        node_id: jr.node_id,
                        node: Node { name: empty_name, address: jr.address },
                    },
                };
                let res = self.commit(&entry);
                match res {
                    Ok(_) => {
                        self.add_non_voter(jr.node_id);
                        Ok(AdminResponse::Joined)
                    },
                    Err(e) => Err(MetaError::App(e)),
                }
            },
        }
    }

    /// Record a non-voter for replication; the consensus engine does not
    /// persist this distinction itself.
    fn add_non_voter(&mut self, id: u64)
        ensures
            final(self)@ == (ClusterG {
                non_voters: spec_add_non_voter(old(self)@.non_voters, id),
                ..old(self)@
            }),
    {
        let n = self.non_voters.len();
        let mut i: usize = 0;
        while i < n
            invariant
                i <= n,
                n == self@.non_voters.len(),
                self@ == old(self)@,
                forall|j: int| 0 <= j < i ==> self@.non_voters[j] != id,
            decreases n - i,
        {
            if self.non_voters[i] == id {
                proof {
                    assert(self@ =~= ClusterG {
                        non_voters: spec_add_non_voter(old(self)@.non_voters, id),
                        ..old(self)@
                    });
                }
                return ;
            }
            i = i + 1;
        }
        self.non_voters.push(id);
        proof {
            assert(self@ =~= ClusterG {
                non_voters: spec_add_non_voter(old(self)@.non_voters, id),
                ..old(self)@
            });
        }
    }

    /// The non-voters to re-register with the consensus engine when this node
    /// becomes leader.
    pub fn list_non_voters(&self) -> (r: Vec<u64>)
        ensures
            r@ == self@.non_voters,
    {
        let n = self.non_voters.len();
        let mut r: Vec<u64> = Vec::new();
        let mut i: usize = 0;
        while i < n
            invariant
                i <= n,
                n == self@.non_voters.len(),
                r@ =~= self@.non_voters.take(i as int),
            decreases n - i,
        {
            r.push(self.non_voters[i]);
            i = i + 1;
        }
        proof {
            assert(self@.non_voters.take(n as int) =~= self@.non_voters);
        }
        r
    }

    /// Serve an admin request arriving at any node. The request is served on
    /// the node itself when it believes it is the leader, forwarded exactly
    /// once when forwarding is permitted, and answered with a redirect
    /// otherwise; a forwarded request that cannot reach the leader fails with
    /// a connection-class error rather than hanging. The answer of a served
    /// request is a function of the shared store image and the request alone —
    /// submitting at a follower answers exactly what submitting at the leader
    /// answers.
    pub fn handle_admin_req(&mut self, at: u64, req: AdminRequest) -> (r: (
        Result<AdminResponse, MetaError>,
        u32,
    ))
        requires
            old(self).wf(),
            cluster_state(old(self)@).seq <= u64::MAX - 2,
            at < old(self)@.nodes.len(),
        ensures
            final(self).wf(),
            r.1 <= 1,
            old(self)@.leader == Some(at) ==> r.1 == 0,
            match old(self)@.leader {
                Option::None => {
                    &&& r.0 matches Err(e) && e@ == MetaErrorG::ForwardToLeader(
                        ForwardToLeader { leader: None },
                    )
                    &&& final(self)@ == old(self)@
                },
                Option::Some(l) => {
                    &&& (l != at && !req.forward_to_leader) ==> (r.0 matches Err(e) && e@
                        == MetaErrorG::ForwardToLeader(ForwardToLeader { leader: Some(l) })
                        && final(self)@ == old(self)@)
                    &&& (l != at && req.forward_to_leader && l >= old(self)@.nodes.len()) ==> (
                    r.0 matches Err(e) && e@ == MetaErrorG::ConnectionError(l) && final(self)@
                        == old(self)@ && r.1 == 1)
                    &&& (l != at && req.forward_to_leader && l < old(self)@.nodes.len()) ==> r.1
                        == 1
                    &&& (l == at || (req.forward_to_leader && l < old(self)@.nodes.len())) ==> (
                    spec_leader_do(old(self)@, req@.req) == (final(self)@, match r.0 {
                        Ok(a) => Ok::<AdminResponseG, MetaErrorG>(a@),
                        Err(e) => Err::<AdminResponseG, MetaErrorG>(e@),
                    }))
                },
            },
    {
        let action = route_admin_req(at, self.current_leader(), req);
        match action {
            RouteAction::HandleLocally(q) => (self.leader_do(q.req), 0),
            RouteAction::Forward(l, q) => {
                if l < self.nodes.len() as u64 {
                    (self.leader_do(q.req), 1)
                } else {
                    (Err(MetaError::ConnectionError(l)), 1)
                }
            },
            RouteAction::Reject(f) => (Err(MetaError::ForwardToLeader(f)), 0),
        }
    }
}

/// What serving a request on the leader does and answers, over the shared
/// store image — the node that happened to receive the request from the
/// client does not appear.
pub open spec fn spec_leader_do(c: ClusterG, req: AdminRequestInnerG) -> (
    ClusterG,
    Result<AdminResponseG, MetaErrorG>,
) {
    match req {
        AdminRequestInnerG::Write(entry) => {
            let (c2, r) = cluster_commit(c, entry.cmd);
            (
                c2,
                match r {
                    Ok(a) => Ok(AdminResponseG::AppliedState(a)),
                    Err(e) => Err(MetaErrorG::App(e)),
                },
            )
        },
        AdminRequestInnerG::Join(jr) => {
            let (c2, r) = cluster_commit(
                c,
                crate::cmd::CmdG::AddNode {
                    node_id: jr.node_id,
                    node: crate::catalog::NodeG { name: ""@, address: jr.address },
                },
            );
            match r {
                Ok(_) => (
                    ClusterG {
                        non_voters: spec_add_non_voter(c2.non_voters, jr.node_id),
                        ..c2
                    },
                    Ok(AdminResponseG::Joined),
                ),
                Err(e) => (c2, Err(MetaErrorG::App(e))),
            }
        },
    }
}

/// Record a non-voter once.
pub open spec fn spec_add_non_voter(nv: Seq<u64>, id: u64) -> Seq<u64> {
    if nv.contains(id) {
        nv
    } else {
        nv.push(id)
    }
}

/// No committed write is lost by a leader change: every replica lists exactly
/// the tables the shared committed log built, so whatever node the next
/// election picks reports every table committed before the change.
pub proof fn lemma_no_committed_writes_lost(
    c: ClusterG,
    i: int,
    j: int,
    db_name: Seq<char>,
    db_id: u64,
)
    requires
        cluster_wf(c),
        0 <= i < c.nodes.len(),
        0 <= j < c.nodes.len(),
    ensures
        spec_list_tables(c.nodes[i].table_lookups, c.nodes[i].tables, db_name, db_id)
            == spec_list_tables(c.nodes[j].table_lookups, c.nodes[j].tables, db_name, db_id),
{
    assert(c.nodes[i] == c.nodes[0]);
    assert(c.nodes[j] == c.nodes[0]);
}

} // verus!
