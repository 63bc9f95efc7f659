use vstd::prelude::*;

use crate::decider::ShardPolicy;

verus! {

/// The resolved configuration of one node, read once at startup.
/// Times are in milliseconds.
#[derive(Clone, Debug)]
pub struct Configuration {
    pub node_id: u64,
    pub peer_node_id: u64,
    pub allow_serve: bool,
    pub preferred_serving_shard: u32,
    pub shards: Vec<u32>,
    pub direct_connect_target: String,
    pub gateway_v4_target: String,
    pub gateway_v6_target: String,
    pub listen_port: u32,
    pub health_interval_ms: u64,
    pub probe_timeout_ms: u64,
    pub poll_interval_ms: u64,
    pub connect_timeout_ms: u64,
    pub request_timeout_ms: u64,
    pub grace_period_ms: u64,
}

/// Why a configuration cannot be run.
#[derive(Clone, Copy, Debug, PartialEq, Eq, Structural)]
pub enum ConfigError {
    /// The listening port does not fit in 16 bits.
    PortOutOfRange,
    /// A shard is listed twice.
    DuplicateShard,
    /// The node and its peer carry the same identifier, so ties cannot be
    /// broken.
    SameNodeIds,
    /// A probe may take as long as the health interval or longer.
    ProbeTimeoutTooLong,
    /// Connecting to or querying the peer may take as long as the poll
    /// interval or longer.
    PeerTimeoutTooLong,
}

/// The first rule, in the order of the variants, that the configuration
/// breaks, if any.
pub open spec fn config_error(c: Configuration) -> Option<ConfigError> {
    if c.listen_port > 65535 {
        Some(ConfigError::PortOutOfRange)
    } else if !c.shards@.no_duplicates() {
        Some(ConfigError::DuplicateShard)
    } else if c.node_id == c.peer_node_id {
        Some(ConfigError::SameNodeIds)
    } else if c.probe_timeout_ms >= c.health_interval_ms {
        Some(ConfigError::ProbeTimeoutTooLong)
    } else if c.connect_timeout_ms >= c.poll_interval_ms || c.request_timeout_ms >= c.poll_interval_ms {
        Some(ConfigError::PeerTimeoutTooLong)
    } else {
        None
    }
}

/// Whether `v` lists no shard twice.
pub fn shards_distinct(v: &Vec<u32>) -> (r: bool)
    ensures
        r == v@.no_duplicates(),
{
    let n = v.len();
    let mut i: usize = 0;
    while i < n
        invariant
            n == v.len(),
            i <= n,
            forall|a: int, b: int| 0 <= a < b < n && a < i ==> v@[a] != v@[b],
        decreases n - i,
    {
        let mut j: usize = i + 1;
        while j < n
            invariant
                n == v.len(),
                i < n,
                i < j <= n,
                forall|a: int, b: int| 0 <= a < b < n && a < i ==> v@[a] != v@[b],
                forall|b: int| i < b < j ==> v@[i as int] != v@[b],
            decreases n - j,
        {
            if v[i] == v[j] {
                assert(!v@.no_duplicates()) by {
                    assert(v@[i as int] == v@[j as int]);
                }
                return false;
            }
            j = j + 1;
        }
        i = i + 1;
    }
    true
}

impl Configuration {
    /// Checks the configuration, and on success hands back the policy the
    /// decider runs.
    pub fn validate(&self) -> (r: Result<ShardPolicy, ConfigError>)
        ensures
            r is Err <==> config_error(*self) is Some,
            r is Err ==> Some(r->Err_0) == config_error(*self),
            r matches Ok(p) ==> {
                &&& p.node_id == self.node_id
                &&& p.peer_node_id == self.peer_node_id
                &&& p.allow_serve == self.allow_serve
                &&& p.preferred_serving_shard == self.preferred_serving_shard
                &&& p.shards@ == self.shards@
                &&& p.grace_period_ms == self.grace_period_ms
                &&& p.shards@.no_duplicates()
            },
    {
        if self.listen_port > 65535 {
            return Err(ConfigError::PortOutOfRange);
        }
        if !shards_distinct(&self.shards) {
            return Err(ConfigError::DuplicateShard);
        }
        if self.node_id == self.peer_node_id {
            return Err(ConfigError::SameNodeIds);
        }
        if self.probe_timeout_ms >= self.health_interval_ms {
            return Err(ConfigError::ProbeTimeoutTooLong);
        }
        if self.connect_timeout_ms >= self.poll_interval_ms || self.request_timeout_ms >= self.poll_interval_ms {
            return Err(ConfigError::PeerTimeoutTooLong);
        }
        let mut shards: Vec<u32> = Vec::new();
        let mut i: usize = 0;
        while i < self.shards.len()
            invariant
                i <= self.shards.len(),
                shards@ == self.shards@.take(i as int),
            decreases self.shards.len() - i,
        {
            shards.push(self.shards[i]);
            i = i + 1;
            assert(shards@ =~= self.shards@.take(i as int));
        }
        assert(shards@ =~= self.shards@);
        Ok(
            ShardPolicy {
                node_id: self.node_id,
                peer_node_id: self.peer_node_id,
                allow_serve: self.allow_serve,
                preferred_serving_shard: self.preferred_serving_shard,
                shards,
                grace_period_ms: self.grace_period_ms,
            },
        )
    }

    /// The listening port, where it fits in 16 bits.
    pub fn listen_port_u16(&self) -> (r: Option<u16>)
        ensures
            r is Some <==> self.listen_port <= 65535,
            r matches Some(p) ==> p as u32 == self.listen_port,
    {
        if self.listen_port <= 65535 {
            Some(self.listen_port as u16)
        } else {
            None
        }
    }
}

} // verus!
