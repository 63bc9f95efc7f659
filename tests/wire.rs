use calandria_ha::codec::{decode_state, encode_state};
use calandria_ha::config::{shards_distinct, ConfigError, Configuration};
use calandria_ha::node_state::{contains_shard, NodeState};

fn state() -> NodeState {
    NodeState {
        ready_to_serve: true,
        preferred_serving_shard: 0x0102_0304,
        direct_connect_healthy: true,
        gateway_v4_healthy: false,
        gateway_v6_healthy: true,
        serving_shards: vec![7, 0xFFFF_FFFF],
    }
}

#[test]
fn encodes_exact_bytes() {
    let bytes = encode_state(&state());
    assert_eq!(
        bytes,
        vec![1, 1, 0, 1, 1, 2, 3, 4, 0, 0, 0, 2, 0, 0, 0, 7, 255, 255, 255, 255]
    );
}

#[test]
fn wire_round_trip() {
    let st = state();
    let back = decode_state(&encode_state(&st)).expect("decodes");
    assert_eq!(back.ready_to_serve, st.ready_to_serve);
    assert_eq!(back.preferred_serving_shard, st.preferred_serving_shard);
    assert_eq!(back.direct_connect_healthy, st.direct_connect_healthy);
    assert_eq!(back.gateway_v4_healthy, st.gateway_v4_healthy);
    assert_eq!(back.gateway_v6_healthy, st.gateway_v6_healthy);
    assert_eq!(back.serving_shards, st.serving_shards);
    let empty = NodeState::conservative(3);
    let back = decode_state(&encode_state(&empty)).expect("decodes");
    assert!(back.serving_shards.is_empty());
    assert_eq!(back.preferred_serving_shard, 3);
    assert!(!back.ready_to_serve);
}

#[test]
fn rejects_malformed_bytes() {
    let good = encode_state(&state());
    assert!(decode_state(&good[..11]).is_none());
    assert!(decode_state(&good[..good.len() - 1]).is_none());
    let mut longer = good.clone();
    longer.push(0);
    assert!(decode_state(&longer).is_none());
    let mut bad_flag = good.clone();
    bad_flag[2] = 2;
    assert!(decode_state(&bad_flag).is_none());
    assert!(decode_state(&[]).is_none());
}

fn config() -> Configuration {
    Configuration {
        node_id: 1,
        peer_node_id: 2,
        allow_serve: true,
        preferred_serving_shard: 0,
        shards: vec![0, 1],
        direct_connect_target: "::1".to_string(),
        gateway_v4_target: "192.168.2.3".to_string(),
        gateway_v6_target: "2001:4860:4860::8888".to_string(),
        listen_port: 6969,
        health_interval_ms: 5000,
        probe_timeout_ms: 1000,
        poll_interval_ms: 5000,
        connect_timeout_ms: 500,
        request_timeout_ms: 1000,
        grace_period_ms: 15000,
    }
}

#[test]
fn valid_configuration_gives_policy() {
    let p = config().validate().expect("valid");
    assert_eq!(p.shards, vec![0, 1]);
    assert_eq!(p.grace_period_ms, 15000);
    assert_eq!(p.node_id, 1);
    assert_eq!(p.peer_node_id, 2);
    assert_eq!(config().listen_port_u16(), Some(6969));
}

#[test]
fn configuration_errors() {
    let mut c = config();
    c.listen_port = 65536;
    assert_eq!(c.validate().err(), Some(ConfigError::PortOutOfRange));
    assert_eq!(c.listen_port_u16(), None);
    c.listen_port = 65535;
    assert_eq!(c.listen_port_u16(), Some(65535));
    let mut c = config();
    c.shards = vec![0, 1, 0];
    assert_eq!(c.validate().err(), Some(ConfigError::DuplicateShard));
    let mut c = config();
    c.peer_node_id = 1;
    assert_eq!(c.validate().err(), Some(ConfigError::SameNodeIds));
    let mut c = config();
    c.probe_timeout_ms = 5000;
    assert_eq!(c.validate().err(), Some(ConfigError::ProbeTimeoutTooLong));
    let mut c = config();
    c.request_timeout_ms = 5000;
    assert_eq!(c.validate().err(), Some(ConfigError::PeerTimeoutTooLong));
    let mut c = config();
    c.connect_timeout_ms = 6000;
    assert_eq!(c.validate().err(), Some(ConfigError::PeerTimeoutTooLong));
}

#[test]
fn shard_list_helpers() {
    assert!(shards_distinct(&vec![]));
    assert!(shards_distinct(&vec![3, 1, 2]));
    assert!(!shards_distinct(&vec![3, 1, 3]));
    assert!(contains_shard(&vec![4, 5], 5));
    assert!(!contains_shard(&vec![4, 5], 6));
    let st = state();
    assert!(st.is_serving(7));
    assert!(!st.is_serving(8));
}
