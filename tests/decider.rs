use calandria_ha::cluster::{Cluster, Side};
use calandria_ha::decider::{Decider, PeerStatus, ShardPhase, ShardPolicy};
use calandria_ha::health::HealthSnapshot;
use calandria_ha::node_state::NodeState;
use calandria_ha::peer::{classify_fetch, PeerFetchError, PeerOutcome};

fn policy(node_id: u64, peer_node_id: u64, preferred: u32, shards: Vec<u32>, grace: u64) -> ShardPolicy {
    ShardPolicy {
        node_id,
        peer_node_id,
        allow_serve: true,
        preferred_serving_shard: preferred,
        shards,
        grace_period_ms: grace,
    }
}

fn healthy() -> HealthSnapshot {
    HealthSnapshot::from_probes(true, true, true)
}

fn peer(ready: bool, preferred: u32, serving: Vec<u32>) -> NodeState {
    NodeState {
        ready_to_serve: ready,
        preferred_serving_shard: preferred,
        direct_connect_healthy: ready,
        gateway_v4_healthy: ready,
        gateway_v6_healthy: ready,
        serving_shards: serving,
    }
}

#[test]
fn direct_link_is_load_bearing() {
    for bits in 0u8..8 {
        let h = HealthSnapshot::from_probes(bits & 1 != 0, bits & 2 != 0, bits & 4 != 0);
        let ready = h.ready_to_serve(true);
        if bits & 1 == 0 {
            assert!(!ready);
        } else {
            assert_eq!(ready, bits & 6 != 0);
        }
        assert!(!h.ready_to_serve(false));
    }
}

#[test]
fn new_node_is_conservative() {
    let d = Decider::new(policy(1, 2, 0, vec![0, 1], 3000), 0);
    let st = d.export();
    assert!(!st.ready_to_serve);
    assert!(st.serving_shards.is_empty());
    assert_eq!(d.peer_status(), PeerStatus::NotPolled { started_ms: 0 });
    assert_eq!(d.phase(1), ShardPhase::Idle);
}

#[test]
fn standalone_after_grace_period() {
    let mut a = Decider::new(policy(1, 2, 0, vec![0], 3000), 0);
    a.on_health(healthy());
    a.on_peer_failure(0);
    assert!(a.export().serving_shards.is_empty());
    assert_eq!(a.peer_status(), PeerStatus::Unreachable { last_heard_ms: 0 });
    a.on_peer_failure(3000);
    assert!(a.export().serving_shards.is_empty());
    a.on_peer_failure(3001);
    assert_eq!(a.export().serving_shards, vec![0]);
}

#[test]
fn takeover_of_every_configured_shard() {
    let mut a = Decider::new(policy(1, 2, 3, vec![4, 3, 9], 1000), 0);
    a.on_health(healthy());
    a.on_peer_failure(10);
    a.on_peer_failure(1011);
    assert_eq!(a.export().serving_shards, vec![4, 3, 9]);
}

#[test]
fn unhealthy_node_never_takes_over() {
    let mut a = Decider::new(policy(1, 2, 0, vec![0], 1000), 0);
    a.on_health(HealthSnapshot::from_probes(false, true, true));
    a.on_peer_failure(0);
    a.on_peer_failure(5000);
    assert!(a.export().serving_shards.is_empty());
}

#[test]
fn answer_resets_grace_period() {
    let mut a = Decider::new(policy(1, 2, 0, vec![0], 1000), 0);
    a.on_health(healthy());
    a.on_peer_failure(0);
    a.on_peer_state(900, &peer(false, 1, vec![1]));
    assert_eq!(a.peer_status(), PeerStatus::Reachable { at_ms: 900 });
    a.on_peer_failure(1500);
    assert_eq!(a.peer_status(), PeerStatus::Unreachable { last_heard_ms: 900 });
    assert_eq!(a.export().serving_shards, vec![0]);
    a.on_peer_state(1600, &peer(true, 0, vec![0]));
    assert!(a.export().serving_shards.is_empty());
    a.on_peer_failure(2600);
    assert!(a.export().serving_shards.is_empty());
    a.on_peer_failure(2601);
    assert_eq!(a.peer_status(), PeerStatus::Unreachable { last_heard_ms: 1600 });
    assert_eq!(a.export().serving_shards, vec![0]);
}

#[test]
fn grace_counts_from_last_answer() {
    let mut a = Decider::new(policy(1, 2, 5, vec![0], 3000), 0);
    a.on_health(healthy());
    a.on_peer_state(1000, &peer(false, 0, vec![]));
    a.on_health(HealthSnapshot::from_probes(false, true, true));
    a.on_health(healthy());
    assert!(a.export().serving_shards.is_empty());
    a.on_peer_failure(4001);
    assert_eq!(a.export().serving_shards, vec![0]);
}

#[test]
fn takeover_within_one_poll_after_grace() {
    let mut a = Decider::new(policy(1, 2, 0, vec![0], 30), 0);
    a.on_health(healthy());
    for t in [10u64, 20, 30] {
        a.on_peer_failure(t);
        assert!(a.export().serving_shards.is_empty());
    }
    a.on_peer_failure(40);
    assert_eq!(a.export().serving_shards, vec![0]);
    assert_eq!(a.serving_shards(), vec![0]);
}

#[test]
fn repeated_identical_answers_do_not_flap() {
    let answers = vec![
        peer(true, 0, vec![]),
        peer(true, 0, vec![0]),
        peer(true, 1, vec![]),
        peer(false, 0, vec![0]),
        peer(false, 1, vec![]),
    ];
    for ans in answers.iter() {
        for start in 0u8..3 {
            let mut a = Decider::new(policy(2, 1, 1, vec![0, 1], 1000), 0);
            a.on_health(healthy());
            if start == 1 {
                a.on_peer_failure(0);
                a.on_peer_failure(2000);
            }
            if start == 2 {
                a.on_peer_state(0, &peer(false, 0, vec![]));
            }
            a.on_peer_state(3000, ans);
            let first = a.export().serving_shards;
            a.on_peer_state(4000, ans);
            assert_eq!(a.export().serving_shards, first);
            a.on_peer_state(5000, ans);
            assert_eq!(a.export().serving_shards, first);
        }
    }
}

#[test]
fn timeout_at_bound_is_unreachable() {
    let st = peer(true, 0, vec![0]);
    assert!(matches!(classify_fetch(1000, 1000, Ok(st.clone())), PeerOutcome::Unreachable));
    assert!(matches!(classify_fetch(1001, 1000, Ok(st.clone())), PeerOutcome::Unreachable));
    match classify_fetch(999, 1000, Ok(st)) {
        PeerOutcome::Answered(got) => assert_eq!(got.serving_shards, vec![0]),
        PeerOutcome::Unreachable => panic!("an answer before the bound counts"),
    }
    assert!(matches!(classify_fetch(0, 1000, Err(PeerFetchError::Timeout)), PeerOutcome::Unreachable));
    assert!(matches!(classify_fetch(0, 1000, Err(PeerFetchError::Connect)), PeerOutcome::Unreachable));
    assert!(matches!(classify_fetch(0, 1000, Err(PeerFetchError::Protocol)), PeerOutcome::Unreachable));
}

#[test]
fn timed_out_answer_counts_as_failure() {
    let mut a = Decider::new(policy(1, 2, 0, vec![0], 1000), 0);
    a.on_health(healthy());
    let late = classify_fetch(1000, 1000, Ok(peer(true, 0, vec![])));
    a.on_peer_outcome(0, &late);
    assert_eq!(a.peer_status(), PeerStatus::Unreachable { last_heard_ms: 0 });
    assert!(a.export().serving_shards.is_empty());
}

#[test]
fn direct_link_loss_stops_serving() {
    let mut a = Decider::new(policy(1, 2, 0, vec![0], 1000), 0);
    a.on_health(healthy());
    a.on_peer_state(0, &peer(false, 1, vec![]));
    assert_eq!(a.export().serving_shards, vec![0]);
    a.on_health(HealthSnapshot::from_probes(false, true, true));
    let st = a.export();
    assert!(st.serving_shards.is_empty());
    assert!(!st.ready_to_serve);
    assert!(!st.direct_connect_healthy);
}

#[test]
fn peer_claim_blocks_then_claiming_then_serving() {
    let mut a = Decider::new(policy(1, 2, 0, vec![0], 1000), 0);
    a.on_health(healthy());
    a.on_peer_state(0, &peer(true, 1, vec![0]));
    assert_eq!(a.phase(0), ShardPhase::Claiming);
    assert!(a.export().serving_shards.is_empty());
    a.on_peer_state(100, &peer(true, 1, vec![]));
    assert_eq!(a.phase(0), ShardPhase::Serving);
    assert_eq!(a.export().serving_shards, vec![0]);
}

#[test]
fn yields_to_ready_peer_that_prefers_the_shard() {
    let mut a = Decider::new(policy(1, 2, 1, vec![0, 1], 1000), 0);
    a.on_health(healthy());
    a.on_peer_state(0, &peer(false, 0, vec![]));
    assert_eq!(a.export().serving_shards, vec![0, 1]);
    a.on_peer_state(100, &peer(true, 0, vec![]));
    assert_eq!(a.phase(0), ShardPhase::Yielding);
    assert_eq!(a.export().serving_shards, vec![1]);
    a.on_peer_state(200, &peer(true, 0, vec![0]));
    assert_eq!(a.phase(0), ShardPhase::Idle);
    assert_eq!(a.export().serving_shards, vec![1]);
}

#[test]
fn restart_forgets_claims() {
    let mut a = Decider::new(policy(1, 2, 0, vec![0], 1000), 0);
    a.on_health(healthy());
    a.on_peer_state(0, &peer(false, 1, vec![]));
    a.restart(0);
    let st = a.export();
    assert!(st.serving_shards.is_empty());
    assert!(!st.ready_to_serve);
    assert_eq!(a.peer_status(), PeerStatus::NotPolled { started_ms: 0 });
}

fn serving(c: &Cluster, side: Side) -> Vec<u32> {
    c.export(side).serving_shards
}

fn disjoint(c: &Cluster) -> bool {
    let a = serving(c, Side::A);
    let b = serving(c, Side::B);
    a.iter().all(|s| !b.contains(s))
}

#[test]
fn tie_break_picks_exactly_one() {
    for first in [Side::A, Side::B] {
        let mut c = Cluster::new(policy(1, 2, 0, vec![0], 3000), policy(2, 1, 0, vec![0], 3000), 0);
        c.health(Side::A, healthy());
        c.health(Side::B, healthy());
        let second = if first == Side::A { Side::B } else { Side::A };
        let mut now: u64 = 0;
        for _ in 0..4 {
            now += 1000;
            c.poll(first, now);
            c.poll(second, now);
            let a = serving(&c, Side::A).contains(&0);
            let b = serving(&c, Side::B).contains(&0);
            assert!(!(a && b));
        }
        assert_eq!(serving(&c, Side::A), vec![0]);
        assert!(serving(&c, Side::B).is_empty());
    }
}

#[test]
fn cluster_failover_and_return() {
    let mut c = Cluster::new(policy(1, 2, 0, vec![0, 1], 2000), policy(2, 1, 1, vec![0, 1], 2000), 0);
    c.health(Side::A, healthy());
    c.health(Side::B, healthy());
    c.poll(Side::A, 1000);
    c.poll(Side::B, 1000);
    c.poll(Side::A, 2000);
    c.poll(Side::B, 2000);
    assert_eq!(serving(&c, Side::A), vec![0]);
    assert_eq!(serving(&c, Side::B), vec![1]);
    c.crash(Side::B, 2000);
    assert!(serving(&c, Side::B).is_empty());
    c.poll(Side::A, 3000);
    c.poll(Side::A, 4000);
    c.poll(Side::A, 5001);
    assert_eq!(serving(&c, Side::A), vec![0, 1]);
    c.recover(Side::B);
    c.health(Side::B, healthy());
    c.poll(Side::B, 6000);
    assert!(serving(&c, Side::B).is_empty());
    c.poll(Side::A, 6000);
    assert_eq!(serving(&c, Side::A), vec![0]);
    c.poll(Side::B, 7000);
    assert_eq!(serving(&c, Side::B), vec![1]);
    assert!(disjoint(&c));
}

#[test]
fn cluster_never_splits_under_event_sequences() {
    let mut seed: u64 = 0x2545_F491_4F6C_DD1D;
    let mut c = Cluster::new(policy(1, 2, 0, vec![0, 1, 2], 1500), policy(2, 1, 2, vec![2, 1, 0], 1500), 0);
    let mut now: u64 = 0;
    for _ in 0..5000 {
        seed ^= seed << 13;
        seed ^= seed >> 7;
        seed ^= seed << 17;
        let side = if seed & 1 == 0 { Side::A } else { Side::B };
        now += (seed >> 8) % 700;
        match (seed >> 1) % 10 {
            0 => c.crash(side, now),
            1 | 2 => c.recover(side),
            3 | 4 => {
                let bits = (seed >> 20) as u8;
                c.health(side, HealthSnapshot::from_probes(bits & 1 != 0 || bits & 8 != 0, bits & 2 != 0, bits & 4 != 0));
            }
            _ => c.poll(side, now),
        }
        assert!(disjoint(&c));
    }
}
