use vstd::prelude::*;

use crate::decider::{exported_by, lemma_health_only_drops, lemma_peer_claims_respected, Decider, DeciderModel, ShardPolicy};
use crate::health::HealthSnapshot;
use crate::node_state::NodeState;

verus! {

/// One of the two nodes of a [`Cluster`].
#[derive(Clone, Copy, Debug, PartialEq, Eq, Structural)]
pub enum Side {
    A,
    B,
}

/// The mathematical state of a [`Cluster`].
pub struct ClusterModel {
    pub a: DeciderModel,
    pub b: DeciderModel,
    pub a_up: bool,
    pub b_up: bool,
}

impl ClusterModel {
    /// No shard is served by both nodes, and a node that is down serves
    /// nothing.
    pub open spec fn inv(self) -> bool {
        &&& self.a.wf()
        &&& self.b.wf()
        &&& forall|s: u32| !(#[trigger] self.a.serving().contains(s) && self.b.serving().contains(s))
        &&& !self.a_up ==> self.a.serving() == Seq::<u32>::empty()
        &&& !self.b_up ==> self.b.serving() == Seq::<u32>::empty()
    }
}

/// Two nodes that poll each other over a link that answers whenever the
/// polled node is up. A node is presumed down by its peer only when it really
/// is down; a node that goes down loses its state and restarts from the
/// conservative default.
pub struct Cluster {
    a: Decider,
    b: Decider,
    a_up: bool,
    b_up: bool,
}

impl View for Cluster {
    type V = ClusterModel;

    closed spec fn view(&self) -> ClusterModel {
        ClusterModel { a: self.a@, b: self.b@, a_up: self.a_up, b_up: self.b_up }
    }
}

/// One poll by `poller` of `other`: the current exported state when `other`
/// is up, a failure otherwise.
fn poll_once(poller: &mut Decider, other: &Decider, other_up: bool, now_ms: u64)
    requires
        old(poller).wf(),
        other.wf(),
    ensures
        final(poller).wf(),
        other_up ==> exists|st: NodeState|
            exported_by(st, other@) && final(poller)@ == old(poller)@.after_peer_state(now_ms, st),
        !other_up ==> final(poller)@ == old(poller)@.after_peer_failure(now_ms),
{
    if other_up {
        let st = other.export();
        poller.on_peer_state(now_ms, &st);
    } else {
        poller.on_peer_failure(now_ms);
    }
}

impl Cluster {
    /// Both nodes up, just started at time `now_ms`: node A runs `policy_a`,
    /// node B runs `policy_b`.
    pub fn new(policy_a: ShardPolicy, policy_b: ShardPolicy, now_ms: u64) -> (r: Cluster)
        requires
            policy_a.shards@.no_duplicates(),
            policy_b.shards@.no_duplicates(),
        ensures
            r@.inv(),
            r@.a_up,
            r@.b_up,
            r@.a.fresh(now_ms),
            r@.b.fresh(now_ms),
            r@.a.node_id == policy_a.node_id,
            r@.a.peer_node_id == policy_a.peer_node_id,
            r@.a.allow_serve == policy_a.allow_serve,
            r@.a.preferred == policy_a.preferred_serving_shard,
            r@.a.shards == policy_a.shards@,
            r@.a.grace_period_ms == policy_a.grace_period_ms,
            r@.b.node_id == policy_b.node_id,
            r@.b.peer_node_id == policy_b.peer_node_id,
            r@.b.allow_serve == policy_b.allow_serve,
            r@.b.preferred == policy_b.preferred_serving_shard,
            r@.b.shards == policy_b.shards@,
            r@.b.grace_period_ms == policy_b.grace_period_ms,
            r@.a.serving() == Seq::<u32>::empty(),
            r@.b.serving() == Seq::<u32>::empty(),
    {
        Cluster { a: Decider::new(policy_a, now_ms), b: Decider::new(policy_b, now_ms), a_up: true, b_up: true }
    }

    /// A health update on node `side`; a node that is down measures nothing,
    /// and the other node is untouched.
    pub fn health(&mut self, side: Side, h: HealthSnapshot)
        requires
            old(self)@.inv(),
        ensures
            final(self)@.inv(),
            final(self)@.a_up == old(self)@.a_up,
            final(self)@.b_up == old(self)@.b_up,
            final(self)@.a == (if side == Side::A && old(self)@.a_up {
                old(self)@.a.after_health(h)
            } else {
                old(self)@.a
            }),
            final(self)@.b == (if side == Side::B && old(self)@.b_up {
                old(self)@.b.after_health(h)
            } else {
                old(self)@.b
            }),
    {
        let ghost before = self@;
        match side {
            Side::A => if self.a_up {
                self.a.on_health(h);
            },
            Side::B => if self.b_up {
                self.b.on_health(h);
            },
        }
        proof {
            assert forall|s: u32| !(#[trigger] self@.a.serving().contains(s) && self@.b.serving().contains(s)) by {
                lemma_health_only_drops(before.a, h, s);
                lemma_health_only_drops(before.b, h, s);
            }
        }
    }

    /// Node `side` polls its peer at time `now_ms`: it takes in the peer's
    /// exported record when the peer is up, and a failure when it is down. A
    /// node that is down polls nothing; the polled node is untouched.
    pub fn poll(&mut self, side: Side, now_ms: u64)
        requires
            old(self)@.inv(),
        ensures
            final(self)@.inv(),
            final(self)@.a_up == old(self)@.a_up,
            final(self)@.b_up == old(self)@.b_up,
            side == Side::B || !old(self)@.a_up ==> final(self)@.a == old(self)@.a,
            side == Side::A || !old(self)@.b_up ==> final(self)@.b == old(self)@.b,
            side == Side::A && old(self)@.a_up && !old(self)@.b_up ==> final(self)@.a
                == old(self)@.a.after_peer_failure(now_ms),
            side == Side::A && old(self)@.a_up && old(self)@.b_up ==> exists|st: NodeState|
                exported_by(st, old(self)@.b) && final(self)@.a == old(self)@.a.after_peer_state(now_ms, st),
            side == Side::B && old(self)@.b_up && !old(self)@.a_up ==> final(self)@.b
                == old(self)@.b.after_peer_failure(now_ms),
            side == Side::B && old(self)@.b_up && old(self)@.a_up ==> exists|st: NodeState|
                exported_by(st, old(self)@.a) && final(self)@.b == old(self)@.b.after_peer_state(now_ms, st),
    {
        let ghost before = self@;
        match side {
            Side::A => if self.a_up {
                poll_once(&mut self.a, &self.b, self.b_up, now_ms);
            },
            Side::B => if self.b_up {
                poll_once(&mut self.b, &self.a, self.a_up, now_ms);
            },
        }
        proof {
            if side == Side::A && before.a_up && before.b_up {
                let st = choose|st: NodeState|
                    exported_by(st, before.b) && self@.a == before.a.after_peer_state(now_ms, st);
                assert forall|s: u32| !(#[trigger] self@.a.serving().contains(s) && self@.b.serving().contains(s)) by {
                    if self@.b.serving().contains(s) {
                        lemma_peer_claims_respected(before.a, now_ms, st, s);
                    }
                }
            }
            if side == Side::B && before.b_up && before.a_up {
                let st = choose|st: NodeState|
                    exported_by(st, before.a) && self@.b == before.b.after_peer_state(now_ms, st);
                assert forall|s: u32| !(#[trigger] self@.a.serving().contains(s) && self@.b.serving().contains(s)) by {
                    if self@.a.serving().contains(s) {
                        lemma_peer_claims_respected(before.b, now_ms, st, s);
                    }
                }
            }
        }
    }

    /// Node `side` goes down at time `now_ms` and loses its state; the other
    /// node is untouched.
    pub fn crash(&mut self, side: Side, now_ms: u64)
        requires
            old(self)@.inv(),
        ensures
            final(self)@.inv(),
            side == Side::A ==> {
                &&& !final(self)@.a_up
                &&& final(self)@.a.fresh(now_ms)
                &&& final(self)@.a.same_policy(old(self)@.a)
                &&& final(self)@.a.serving() == Seq::<u32>::empty()
                &&& final(self)@.b == old(self)@.b
                &&& final(self)@.b_up == old(self)@.b_up
            },
            side == Side::B ==> {
                &&& !final(self)@.b_up
                &&& final(self)@.b.fresh(now_ms)
                &&& final(self)@.b.same_policy(old(self)@.b)
                &&& final(self)@.b.serving() == Seq::<u32>::empty()
                &&& final(self)@.a == old(self)@.a
                &&& final(self)@.a_up == old(self)@.a_up
            },
    {
        match side {
            Side::A => {
                self.a.restart(now_ms);
                self.a_up = false;
            },
            Side::B => {
                self.b.restart(now_ms);
                self.b_up = false;
            },
        }
    }

    /// Node `side` comes back up, in the state it went down with (the
    /// conservative default, if it went down through `crash`); the other
    /// node is untouched.
    pub fn recover(&mut self, side: Side)
        requires
            old(self)@.inv(),
        ensures
            final(self)@.inv(),
            final(self)@.a == old(self)@.a,
            final(self)@.b == old(self)@.b,
            final(self)@.a_up == (side == Side::A || old(self)@.a_up),
            final(self)@.b_up == (side == Side::B || old(self)@.b_up),
    {
        match side {
            Side::A => self.a_up = true,
            Side::B => self.b_up = true,
        }
    }

    /// The record node `side` exports.
    pub fn export(&self, side: Side) -> (r: NodeState)
        requires
            self@.inv(),
        ensures
            side == Side::A ==> exported_by(r, self@.a),
            side == Side::B ==> exported_by(r, self@.b),
    {
        match side {
            Side::A => self.a.export(),
            Side::B => self.b.export(),
        }
    }
}

/// In every state the cluster can reach, the two nodes' served shards are
/// disjoint.
pub proof fn lemma_no_split_brain(c: ClusterModel, s: u32)
    requires
        c.inv(),
    ensures
        !(c.a.serving().contains(s) && c.b.serving().contains(s)),
{
}

} // verus!
