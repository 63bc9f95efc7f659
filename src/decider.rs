use vstd::prelude::*;

use crate::health::{health_ready, HealthSnapshot};
use crate::node_state::{claims, NodeState};
use crate::peer::PeerOutcome;

verus! {

/// Where one configured shard stands, seen from this node.
#[derive(Clone, Copy, Debug, PartialEq, Eq, Structural)]
pub enum ShardPhase {
    /// Not serving; the peer's ownership is unknown or presumed valid.
    Idle,
    /// This node has priority on the shard, but waits for the peer to stop
    /// serving it.
    Claiming,
    /// Serving, and listed in the exported `serving_shards`.
    Serving,
    /// Stopped serving so that a preferred, ready peer can take the shard.
    Yielding,
}

/// What this node last learned about its peer.
#[derive(Clone, Copy, Debug, PartialEq, Eq, Structural)]
pub enum PeerStatus {
    /// No poll has completed since the node started at the given time
    /// (milliseconds).
    NotPolled { started_ms: u64 },
    /// The last poll answered, at the given time (milliseconds).
    Reachable { at_ms: u64 },
    /// The last poll failed; the peer was last heard from at the given time
    /// (milliseconds), or never since the node started then.
    Unreachable { last_heard_ms: u64 },
}

/// The static part of a node's decisions.
#[derive(Clone, Debug)]
pub struct ShardPolicy {
    /// This node's identifier; on an exact tie the lower identifier wins.
    pub node_id: u64,
    /// The peer's identifier.
    pub peer_node_id: u64,
    /// Whether this node may serve at all.
    pub allow_serve: bool,
    /// The shard this node prefers to own when both nodes are healthy.
    pub preferred_serving_shard: u32,
    /// The shards this node is capable of serving, without duplicates.
    pub shards: Vec<u32>,
    /// How long (milliseconds) the peer must stay unreachable before it is
    /// presumed down.
    pub grace_period_ms: u64,
}

/// The mathematical state of a [`Decider`].
pub struct DeciderModel {
    pub node_id: u64,
    pub peer_node_id: u64,
    pub allow_serve: bool,
    pub preferred: u32,
    pub shards: Seq<u32>,
    pub grace_period_ms: u64,
    pub health: HealthSnapshot,
    pub phases: Seq<ShardPhase>,
    pub peer: PeerStatus,
}

/// This node has priority on shard `s` over a peer that reported `peer`:
/// the peer cannot serve, or only this node prefers the shard, or neither or
/// both prefer it and this node has the lower identifier.
pub open spec fn has_priority(m: DeciderModel, s: u32, peer: NodeState) -> bool {
    let mine = m.preferred == s;
    let theirs = peer.preferred_serving_shard == s;
    ||| !peer.ready_to_serve
    ||| (mine && !theirs)
    ||| (mine == theirs && m.node_id < m.peer_node_id)
}

/// A ready peer prefers shard `s` and this node does not: a node serving it
/// hands it over.
pub open spec fn must_yield(m: DeciderModel, s: u32, peer: NodeState) -> bool {
    &&& peer.ready_to_serve
    &&& peer.preferred_serving_shard == s
    &&& m.preferred != s
}

/// The next phase of shard `s` after the peer reported `peer`.
pub open spec fn phase_on_peer_state(m: DeciderModel, s: u32, ph: ShardPhase, peer: NodeState) -> ShardPhase {
    if !m.ready() {
        ShardPhase::Idle
    } else if claims(peer, s) {
        if ph == ShardPhase::Serving {
            ShardPhase::Yielding
        } else if has_priority(m, s, peer) {
            ShardPhase::Claiming
        } else {
            ShardPhase::Idle
        }
    } else if ph == ShardPhase::Serving {
        if must_yield(m, s, peer) {
            ShardPhase::Yielding
        } else {
            ShardPhase::Serving
        }
    } else if has_priority(m, s, peer) {
        ShardPhase::Serving
    } else if ph == ShardPhase::Yielding {
        ShardPhase::Yielding
    } else {
        ShardPhase::Idle
    }
}

/// The next phase of a shard after a failed poll: a node that cannot serve
/// drops everything; a node whose peer is presumed down serves every
/// configured shard; otherwise nothing changes.
pub open spec fn phase_on_peer_failure(ready: bool, peer_down: bool, ph: ShardPhase) -> ShardPhase {
    if !ready {
        ShardPhase::Idle
    } else if peer_down {
        ShardPhase::Serving
    } else {
        ph
    }
}

/// The next phase of a shard after a health update: a node that cannot
/// serve drops everything, and otherwise nothing changes.
pub open spec fn phase_on_health(ready: bool, ph: ShardPhase) -> ShardPhase {
    if !ready {
        ShardPhase::Idle
    } else {
        ph
    }
}

/// Milliseconds from `since` to `now`, zero if the clock went backwards.
pub open spec fn elapsed(since: u64, now: u64) -> int {
    if now >= since {
        now - since
    } else {
        0
    }
}

/// Whether `st` is the record that a node in state `m` exports.
pub open spec fn exported_by(st: NodeState, m: DeciderModel) -> bool {
    &&& st.ready_to_serve == m.ready()
    &&& st.preferred_serving_shard == m.preferred
    &&& st.direct_connect_healthy == m.health.direct_link_healthy
    &&& st.gateway_v4_healthy == m.health.gateway_v4_healthy
    &&& st.gateway_v6_healthy == m.health.gateway_v6_healthy
    &&& st.serving_shards@ == m.serving()
}

/// The shards among the first `n` whose phase is `Serving`, in order.
pub open spec fn serving_prefix(shards: Seq<u32>, phases: Seq<ShardPhase>, n: nat) -> Seq<u32>
    decreases n,
{
    if n == 0 {
        Seq::empty()
    } else {
        let rest = serving_prefix(shards, phases, (n - 1) as nat);
        if phases[n - 1] == ShardPhase::Serving {
            rest.push(shards[n - 1])
        } else {
            rest
        }
    }
}

impl DeciderModel {
    pub open spec fn wf(self) -> bool {
        &&& self.phases.len() == self.shards.len()
        &&& self.shards.no_duplicates()
    }

    /// Whether local health is sufficient to serve.
    pub open spec fn ready(self) -> bool {
        health_ready(self.allow_serve, self.health)
    }

    /// The shards exported as served, in configured order.
    pub open spec fn serving(self) -> Seq<u32> {
        serving_prefix(self.shards, self.phases, self.shards.len())
    }

    /// The state after a new health snapshot.
    pub open spec fn after_health(self, h: HealthSnapshot) -> DeciderModel {
        let ready = health_ready(self.allow_serve, h);
        DeciderModel {
            health: h,
            phases: Seq::new(self.phases.len(), |i: int| phase_on_health(ready, self.phases[i])),
            ..self
        }
    }

    /// The state after the peer answered a poll at time `now` with `peer`.
    pub open spec fn after_peer_state(self, now: u64, peer: NodeState) -> DeciderModel {
        DeciderModel {
            peer: PeerStatus::Reachable { at_ms: now },
            phases: Seq::new(
                self.phases.len(),
                |i: int| phase_on_peer_state(self, self.shards[i], self.phases[i], peer),
            ),
            ..self
        }
    }

    /// When the peer was last heard from; the start of this node if never.
    pub open spec fn last_heard(self) -> u64 {
        match self.peer {
            PeerStatus::NotPolled { started_ms } => started_ms,
            PeerStatus::Reachable { at_ms } => at_ms,
            PeerStatus::Unreachable { last_heard_ms } => last_heard_ms,
        }
    }

    /// Whether a poll failing at `now` leaves the peer presumed down: it has
    /// not been heard from for longer than the grace period.
    pub open spec fn peer_down_at(self, now: u64) -> bool {
        elapsed(self.last_heard(), now) > self.grace_period_ms
    }

    /// Whether the policy fields of two states agree.
    pub open spec fn same_policy(self, other: DeciderModel) -> bool {
        &&& self.node_id == other.node_id
        &&& self.peer_node_id == other.peer_node_id
        &&& self.allow_serve == other.allow_serve
        &&& self.preferred == other.preferred
        &&& self.shards == other.shards
        &&& self.grace_period_ms == other.grace_period_ms
    }

    /// The conservative state of a node that started at `now`: nothing
    /// healthy, peer not polled, every shard `Idle`.
    pub open spec fn fresh(self, now: u64) -> bool {
        &&& self.wf()
        &&& self.health == HealthSnapshot::unhealthy_spec()
        &&& self.peer == (PeerStatus::NotPolled { started_ms: now })
        &&& forall|i: int| 0 <= i < self.phases.len() ==> self.phases[i] == ShardPhase::Idle
    }

    /// The state after a poll of the peer failed at time `now`.
    pub open spec fn after_peer_failure(self, now: u64) -> DeciderModel {
        let ready = self.ready();
        let down = self.peer_down_at(now);
        DeciderModel {
            peer: PeerStatus::Unreachable { last_heard_ms: self.last_heard() },
            phases: Seq::new(self.phases.len(), |i: int| phase_on_peer_failure(ready, down, self.phases[i])),
            ..self
        }
    }
}

/// Membership in the served prefix: a shard is listed exactly when one of
/// the first `n` configured positions holds it in phase `Serving`.
pub proof fn lemma_serving_prefix_contains(shards: Seq<u32>, phases: Seq<ShardPhase>, n: nat, s: u32)
    requires
        n <= shards.len(),
        n <= phases.len(),
    ensures
        serving_prefix(shards, phases, n).contains(s) <==> exists|i: int|
            0 <= i < n && shards[i] == s && phases[i] == ShardPhase::Serving,
    decreases n,
{
    if n > 0 {
        lemma_serving_prefix_contains(shards, phases, (n - 1) as nat, s);
        let rest = serving_prefix(shards, phases, (n - 1) as nat);
        if phases[n - 1] == ShardPhase::Serving {
            let ext = rest.push(shards[n - 1]);
            assert(ext.contains(s) <==> (rest.contains(s) || shards[n - 1] == s)) by {
                if ext.contains(s) {
                    let k = choose|k: int| 0 <= k < ext.len() && #[trigger] ext[k] == s;
                    if k < rest.len() {
                        assert(rest[k] == s);
                    }
                }
                if rest.contains(s) {
                    let k = choose|k: int| 0 <= k < rest.len() && #[trigger] rest[k] == s;
                    assert(ext[k] == s);
                }
                if shards[n - 1] == s {
                    assert(ext[rest.len() as int] == s);
                }
            }
        }
    }
}

/// Two phase sequences that agree on which positions are `Serving` list the
/// same served shards.
pub proof fn lemma_serving_prefix_same_serving(
    shards: Seq<u32>,
    first: Seq<ShardPhase>,
    second: Seq<ShardPhase>,
    n: nat,
)
    requires
        n <= first.len(),
        n <= second.len(),
        forall|i: int| 0 <= i < n ==> (first[i] == ShardPhase::Serving) == (second[i] == ShardPhase::Serving),
    ensures
        serving_prefix(shards, first, n) == serving_prefix(shards, second, n),
    decreases n,
{
    if n > 0 {
        lemma_serving_prefix_same_serving(shards, first, second, (n - 1) as nat);
    }
}

/// Where every position is `Serving`, every configured shard is listed, in
/// order; where none is, nothing is.
pub proof fn lemma_serving_prefix_all_or_none(shards: Seq<u32>, phases: Seq<ShardPhase>, n: nat)
    requires
        n <= shards.len(),
        n <= phases.len(),
    ensures
        (forall|i: int| 0 <= i < n ==> phases[i] == ShardPhase::Serving) ==> serving_prefix(shards, phases, n)
            == shards.take(n as int),
        (forall|i: int| 0 <= i < n ==> phases[i] != ShardPhase::Serving) ==> serving_prefix(shards, phases, n)
            == Seq::<u32>::empty(),
    decreases n,
{
    if n > 0 {
        lemma_serving_prefix_all_or_none(shards, phases, (n - 1) as nat);
        assert(shards.take(n as int) =~= shards.take(n - 1).push(shards[n - 1]));
    }
}

/// Answering the same peer state twice changes nothing that is exported as
/// served: the second identical answer confirms what the first decided.
pub proof fn lemma_repeated_peer_state_is_stable(m: DeciderModel, t1: u64, t2: u64, peer: NodeState)
    requires
        m.wf(),
    ensures
        m.after_peer_state(t1, peer).after_peer_state(t2, peer).serving() == m.after_peer_state(t1, peer).serving(),
{
    let m1 = m.after_peer_state(t1, peer);
    let m2 = m1.after_peer_state(t2, peer);
    lemma_serving_prefix_same_serving(m.shards, m2.phases, m1.phases, m.shards.len());
}

/// A ready node whose peer has not been heard from for longer than the
/// grace period serves every configured shard, in configured order, as soon
/// as a poll fails: the first failed poll after the grace period runs out.
pub proof fn lemma_standalone_takeover(m: DeciderModel, now: u64)
    requires
        m.wf(),
        m.ready(),
        elapsed(m.last_heard(), now) > m.grace_period_ms,
    ensures
        m.after_peer_failure(now).serving() == m.shards,
{
    let m1 = m.after_peer_failure(now);
    lemma_serving_prefix_all_or_none(m1.shards, m1.phases, m1.shards.len());
    assert(m.shards.take(m.shards.len() as int) =~= m.shards);
}

/// Tie-break, winning side: when this node and a ready peer both prefer
/// shard `s`, the peer does not claim it, and this node has the lower
/// identifier, this node serves `s` after taking in the peer's state,
/// whatever it did before.
pub proof fn lemma_tie_winner_serves(m: DeciderModel, now: u64, peer: NodeState, s: u32)
    requires
        m.wf(),
        m.ready(),
        m.shards.contains(s),
        m.preferred == s,
        peer.ready_to_serve,
        peer.preferred_serving_shard == s,
        !claims(peer, s),
        m.node_id < m.peer_node_id,
    ensures
        m.after_peer_state(now, peer).serving().contains(s),
{
    let m1 = m.after_peer_state(now, peer);
    let i = choose|i: int| 0 <= i < m.shards.len() && m.shards[i] == s;
    assert(m1.phases[i] == ShardPhase::Serving);
    lemma_serving_prefix_contains(m1.shards, m1.phases, m1.shards.len(), s);
}

/// Tie-break, losing side: a node that does not serve shard `s`, prefers it
/// as its ready peer does, and has the higher identifier, does not start
/// serving `s` after taking in the peer's state, whatever the peer serves.
pub proof fn lemma_tie_loser_stays_out(m: DeciderModel, now: u64, peer: NodeState, s: u32)
    requires
        m.wf(),
        !m.serving().contains(s),
        m.preferred == s,
        peer.ready_to_serve,
        peer.preferred_serving_shard == s,
        m.node_id > m.peer_node_id,
    ensures
        !m.after_peer_state(now, peer).serving().contains(s),
{
    let m1 = m.after_peer_state(now, peer);
    lemma_serving_prefix_contains(m.shards, m.phases, m.shards.len(), s);
    lemma_serving_prefix_contains(m1.shards, m1.phases, m1.shards.len(), s);
    if m1.serving().contains(s) {
        let i = choose|i: int| 0 <= i < m1.shards.len() && m1.shards[i] == s && m1.phases[i] == ShardPhase::Serving;
        assert(m.phases[i] != ShardPhase::Serving);
    }
}

/// Tie-break between two ready nodes `a` and `b` that both hold and prefer
/// shard `s`, where `a` has the lower identifier and `b` does not serve `s`:
/// once each has taken in the other's exported record, in either order and
/// at any times, `a` serves `s` and `b` does not. Further polls keep it so
/// (the two lemmas above hold of every later state).
pub proof fn lemma_tie_break_exactly_one(
    a: DeciderModel,
    b: DeciderModel,
    s: u32,
    t1: u64,
    t2: u64,
    rec_a: NodeState,
    rec_b: NodeState,
    rec_a1: NodeState,
    rec_b1: NodeState,
)
    requires
        a.wf(),
        b.wf(),
        a.ready(),
        b.ready(),
        a.shards.contains(s),
        b.shards.contains(s),
        a.preferred == s,
        b.preferred == s,
        a.node_id < a.peer_node_id,
        b.node_id > b.peer_node_id,
        !b.serving().contains(s),
        exported_by(rec_a, a),
        exported_by(rec_b, b),
        exported_by(rec_a1, a.after_peer_state(t1, rec_b)),
        exported_by(rec_b1, b.after_peer_state(t1, rec_a)),
    ensures
        a.after_peer_state(t1, rec_b).serving().contains(s),
        !b.after_peer_state(t2, rec_a1).serving().contains(s),
        !b.after_peer_state(t1, rec_a).serving().contains(s),
        a.after_peer_state(t2, rec_b1).serving().contains(s),
{
    lemma_tie_winner_serves(a, t1, rec_b, s);
    lemma_tie_loser_stays_out(b, t2, rec_a1, s);
    lemma_tie_loser_stays_out(b, t1, rec_a, s);
    lemma_tie_winner_serves(a, t2, rec_b1, s);
}

/// A health update without a healthy direct link leaves nothing served.
pub proof fn lemma_direct_link_loss_stops_serving(m: DeciderModel, h: HealthSnapshot)
    requires
        m.wf(),
        !h.direct_link_healthy,
    ensures
        m.after_health(h).serving() == Seq::<u32>::empty(),
        !m.after_health(h).ready(),
{
    let m1 = m.after_health(h);
    lemma_serving_prefix_all_or_none(m1.shards, m1.phases, m1.shards.len());
}

/// After taking in a peer's state, a node serves no shard that the peer
/// claims: it neither starts nor keeps serving it.
pub proof fn lemma_peer_claims_respected(m: DeciderModel, now: u64, peer: NodeState, s: u32)
    requires
        m.wf(),
        claims(peer, s),
    ensures
        !m.after_peer_state(now, peer).serving().contains(s),
{
    let m1 = m.after_peer_state(now, peer);
    lemma_serving_prefix_contains(m1.shards, m1.phases, m1.shards.len(), s);
}

/// A health update never adds a served shard.
pub proof fn lemma_health_only_drops(m: DeciderModel, h: HealthSnapshot, s: u32)
    requires
        m.wf(),
    ensures
        m.after_health(h).serving().contains(s) ==> m.serving().contains(s),
{
    let m1 = m.after_health(h);
    lemma_serving_prefix_contains(m1.shards, m1.phases, m1.shards.len(), s);
    lemma_serving_prefix_contains(m.shards, m.phases, m.shards.len(), s);
    if m1.serving().contains(s) {
        let i = choose|i: int| 0 <= i < m1.shards.len() && m1.shards[i] == s && m1.phases[i] == ShardPhase::Serving;
        assert(m.phases[i] == ShardPhase::Serving);
    }
}

/// The failover state machine of one node.
pub struct Decider {
    policy: ShardPolicy,
    health: HealthSnapshot,
    phases: Vec<ShardPhase>,
    peer: PeerStatus,
}

impl View for Decider {
    type V = DeciderModel;

    closed spec fn view(&self) -> DeciderModel {
        DeciderModel {
            node_id: self.policy.node_id,
            peer_node_id: self.policy.peer_node_id,
            allow_serve: self.policy.allow_serve,
            preferred: self.policy.preferred_serving_shard,
            shards: self.policy.shards@,
            grace_period_ms: self.policy.grace_period_ms,
            health: self.health,
            phases: self.phases@,
            peer: self.peer,
        }
    }
}

impl Decider {
    pub open spec fn wf(&self) -> bool {
        self@.wf()
    }

    /// A node that has just started at time `now_ms`: nothing healthy, peer
    /// not polled, no shard claimed.
    pub fn new(policy: ShardPolicy, now_ms: u64) -> (r: Decider)
        requires
            policy.shards@.no_duplicates(),
        ensures
            r.wf(),
            r@.node_id == policy.node_id,
            r@.peer_node_id == policy.peer_node_id,
            r@.allow_serve == policy.allow_serve,
            r@.preferred == policy.preferred_serving_shard,
            r@.shards == policy.shards@,
            r@.grace_period_ms == policy.grace_period_ms,
            r@.fresh(now_ms),
            r@.serving() == Seq::<u32>::empty(),
    {
        let mut phases: Vec<ShardPhase> = Vec::new();
        let n = policy.shards.len();
        while phases.len() < n
            invariant
                phases.len() <= n,
                forall|i: int| 0 <= i < phases.len() ==> phases@[i] == ShardPhase::Idle,
            decreases n - phases.len(),
        {
            phases.push(ShardPhase::Idle);
        }
        let r = Decider { policy, health: HealthSnapshot::unhealthy(), phases, peer: PeerStatus::NotPolled { started_ms: now_ms } };
        proof {
            lemma_serving_prefix_all_or_none(r@.shards, r@.phases, r@.shards.len());
        }
        r
    }

    /// Takes in the outcome of one poll of the peer at time `now_ms`.
    pub fn on_peer_outcome(&mut self, now_ms: u64, outcome: &PeerOutcome)
        requires
            old(self).wf(),
        ensures
            final(self).wf(),
            *outcome matches PeerOutcome::Answered(st) ==> final(self)@ == old(self)@.after_peer_state(now_ms, st),
            *outcome is Unreachable ==> final(self)@ == old(self)@.after_peer_failure(now_ms),
    {
        match outcome {
            PeerOutcome::Answered(st) => self.on_peer_state(now_ms, st),
            PeerOutcome::Unreachable => self.on_peer_failure(now_ms),
        }
    }

    /// Forgets everything, as a process restarted at time `now_ms` does:
    /// nothing healthy, peer not polled, no shard claimed. Only the policy
    /// stays.
    pub fn restart(&mut self, now_ms: u64)
        requires
            old(self).wf(),
        ensures
            final(self).wf(),
            final(self)@.same_policy(old(self)@),
            final(self)@.fresh(now_ms),
            final(self)@.serving() == Seq::<u32>::empty(),
    {
        let n = self.phases.len();
        let mut phases: Vec<ShardPhase> = Vec::new();
        while phases.len() < n
            invariant
                phases.len() <= n,
                forall|i: int| 0 <= i < phases.len() ==> phases@[i] == ShardPhase::Idle,
            decreases n - phases.len(),
        {
            phases.push(ShardPhase::Idle);
        }
        self.phases = phases;
        self.health = HealthSnapshot::unhealthy();
        self.peer = PeerStatus::NotPolled { started_ms: now_ms };
        proof {
            lemma_serving_prefix_all_or_none(self@.shards, self@.phases, self@.shards.len());
        }
    }

    /// Whether local health is sufficient to serve.
    pub fn ready_to_serve(&self) -> (r: bool)
        ensures
            r == self@.ready(),
    {
        self.health.ready_to_serve(self.policy.allow_serve)
    }

    fn has_priority(&self, s: u32, peer: &NodeState) -> (r: bool)
        ensures
            r == has_priority(self@, s, *peer),
    {
        let mine = self.policy.preferred_serving_shard == s;
        let theirs = peer.preferred_serving_shard == s;
        !peer.ready_to_serve || (mine && !theirs) || (mine == theirs && self.policy.node_id
            < self.policy.peer_node_id)
    }

    fn next_phase_on_peer_state(&self, ready: bool, s: u32, ph: ShardPhase, peer: &NodeState) -> (r: ShardPhase)
        requires
            ready == self@.ready(),
        ensures
            r == phase_on_peer_state(self@, s, ph, *peer),
    {
        if !ready {
            ShardPhase::Idle
        } else if peer.is_serving(s) {
            if ph == ShardPhase::Serving {
                ShardPhase::Yielding
            } else if self.has_priority(s, peer) {
                ShardPhase::Claiming
            } else {
                ShardPhase::Idle
            }
        } else if ph == ShardPhase::Serving {
            if peer.ready_to_serve && peer.preferred_serving_shard == s
                && self.policy.preferred_serving_shard != s {
                ShardPhase::Yielding
            } else {
                ShardPhase::Serving
            }
        } else if self.has_priority(s, peer) {
            ShardPhase::Serving
        } else if ph == ShardPhase::Yielding {
            ShardPhase::Yielding
        } else {
            ShardPhase::Idle
        }
    }

    /// Publishes a new health snapshot. A node that is no longer ready stops
    /// serving every shard at once; a node that is ready claims nothing
    /// before it has heard from its peer.
    pub fn on_health(&mut self, h: HealthSnapshot)
        requires
            old(self).wf(),
        ensures
            final(self).wf(),
            final(self)@ == old(self)@.after_health(h),
    {
        let ready = h.ready_to_serve(self.policy.allow_serve);
        let n = self.phases.len();
        let mut phases: Vec<ShardPhase> = Vec::new();
        let mut i: usize = 0;
        while i < n
            invariant
                n == self.phases.len(),
                i <= n,
                phases.len() == i,
                ready == health_ready(self.policy.allow_serve, h),
                forall|j: int| 0 <= j < i ==> phases@[j] == phase_on_health(ready, self.phases@[j]),
            decreases n - i,
        {
            let ph = self.phases[i];
            phases.push(if ready { ph } else { ShardPhase::Idle });
            i = i + 1;
        }
        let ghost before = self@;
        self.health = h;
        self.phases = phases;
        assert(self@.phases =~= before.after_health(h).phases);
    }

    /// Takes in the state the peer answered with at time `now_ms`.
    pub fn on_peer_state(&mut self, now_ms: u64, peer: &NodeState)
        requires
            old(self).wf(),
        ensures
            final(self).wf(),
            final(self)@ == old(self)@.after_peer_state(now_ms, *peer),
    {
        let ready = self.ready_to_serve();
        let n = self.phases.len();
        let mut phases: Vec<ShardPhase> = Vec::new();
        let mut i: usize = 0;
        while i < n
            invariant
                n == self.phases.len(),
                n == self.policy.shards.len(),
                i <= n,
                phases.len() == i,
                ready == self@.ready(),
                forall|j: int|
                    0 <= j < i ==> phases@[j] == phase_on_peer_state(
                        self@,
                        self.policy.shards@[j],
                        self.phases@[j],
                        *peer,
                    ),
            decreases n - i,
        {
            let ph = self.next_phase_on_peer_state(ready, self.policy.shards[i], self.phases[i], peer);
            phases.push(ph);
            i = i + 1;
        }
        let ghost before = self@;
        self.phases = phases;
        self.peer = PeerStatus::Reachable { at_ms: now_ms };
        assert(self@.phases =~= before.after_peer_state(now_ms, *peer).phases);
    }

    /// Records that a poll of the peer failed at time `now_ms`. Once the peer
    /// has not been heard from for longer than the grace period (counted from
    /// the last answer, or from the start of this node if none came) it is
    /// presumed down, and a ready node serves every configured shard.
    pub fn on_peer_failure(&mut self, now_ms: u64)
        requires
            old(self).wf(),
        ensures
            final(self).wf(),
            final(self)@ == old(self)@.after_peer_failure(now_ms),
    {
        let ready = self.ready_to_serve();
        let last_heard = match self.peer {
            PeerStatus::NotPolled { started_ms } => started_ms,
            PeerStatus::Reachable { at_ms } => at_ms,
            PeerStatus::Unreachable { last_heard_ms } => last_heard_ms,
        };
        let down = now_ms >= last_heard && now_ms - last_heard > self.policy.grace_period_ms;
        let n = self.phases.len();
        let mut phases: Vec<ShardPhase> = Vec::new();
        let mut i: usize = 0;
        while i < n
            invariant
                n == self.phases.len(),
                i <= n,
                phases.len() == i,
                ready == self@.ready(),
                down == self@.peer_down_at(now_ms),
                forall|j: int| 0 <= j < i ==> phases@[j] == phase_on_peer_failure(ready, down, self.phases@[j]),
            decreases n - i,
        {
            let ph = self.phases[i];
            let next = if !ready {
                ShardPhase::Idle
            } else if down {
                ShardPhase::Serving
            } else {
                ph
            };
            phases.push(next);
            i = i + 1;
        }
        let ghost before = self@;
        self.phases = phases;
        self.peer = PeerStatus::Unreachable { last_heard_ms: last_heard };
        assert(self@.phases =~= before.after_peer_failure(now_ms).phases);
    }

    /// The shards currently served, in configured order.
    pub fn serving_shards(&self) -> (r: Vec<u32>)
        requires
            self.wf(),
        ensures
            r@ == self@.serving(),
    {
        let mut r: Vec<u32> = Vec::new();
        let mut i: usize = 0;
        while i < self.phases.len()
            invariant
                self.wf(),
                i <= self.phases.len(),
                r@ == serving_prefix(self.policy.shards@, self.phases@, i as nat),
            decreases self.phases.len() - i,
        {
            if self.phases[i] == ShardPhase::Serving {
                r.push(self.policy.shards[i]);
            }
            i = i + 1;
        }
        r
    }

    /// The record exported to the peer and to operators.
    pub fn export(&self) -> (r: NodeState)
        requires
            self.wf(),
        ensures
            exported_by(r, self@),
    {
        NodeState {
            ready_to_serve: self.ready_to_serve(),
            preferred_serving_shard: self.policy.preferred_serving_shard,
            direct_connect_healthy: self.health.direct_link_healthy,
            gateway_v4_healthy: self.health.gateway_v4_healthy,
            gateway_v6_healthy: self.health.gateway_v6_healthy,
            serving_shards: self.serving_shards(),
        }
    }

    /// The phase of the configured shard at position `i`.
    pub fn phase(&self, i: usize) -> (r: ShardPhase)
        requires
            self.wf(),
            i < self@.shards.len(),
        ensures
            r == self@.phases[i as int],
    {
        self.phases[i]
    }

    /// What this node last learned about its peer.
    pub fn peer_status(&self) -> (r: PeerStatus)
        ensures
            r == self@.peer,
    {
        self.peer
    }
}

} // verus!
