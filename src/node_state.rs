use vstd::prelude::*;

verus! {

/// The record a node exports to its peer and to operators.
///
/// `serving_shards` lists, in configured order, the shards the node currently
/// claims to serve.
#[derive(Clone, Debug)]
pub struct NodeState {
    pub ready_to_serve: bool,
    pub preferred_serving_shard: u32,
    pub direct_connect_healthy: bool,
    pub gateway_v4_healthy: bool,
    pub gateway_v6_healthy: bool,
    pub serving_shards: Vec<u32>,
}

/// Whether the exported record claims shard `s`.
pub open spec fn claims(st: NodeState, s: u32) -> bool {
    st.serving_shards@.contains(s)
}

/// Whether `v` holds the shard `s`.
pub fn contains_shard(v: &Vec<u32>, s: u32) -> (r: bool)
    ensures
        r == v@.contains(s),
{
    let mut i: usize = 0;
    while i < v.len()
        invariant
            i <= v.len(),
            forall|j: int| 0 <= j < i ==> v@[j] != s,
        decreases v.len() - i,
    {
        if v[i] == s {
            return true;
        }
        i = i + 1;
    }
    false
}

impl NodeState {
    /// The state a node exports before it has measured anything: not ready,
    /// nothing healthy, no shard claimed.
    pub fn conservative(preferred_serving_shard: u32) -> (r: NodeState)
        ensures
            !r.ready_to_serve,
            r.preferred_serving_shard == preferred_serving_shard,
            !r.direct_connect_healthy,
            !r.gateway_v4_healthy,
            !r.gateway_v6_healthy,
            r.serving_shards@ == Seq::<u32>::empty(),
    {
        NodeState {
            ready_to_serve: false,
            preferred_serving_shard,
            direct_connect_healthy: false,
            gateway_v4_healthy: false,
            gateway_v6_healthy: false,
            serving_shards: Vec::new(),
        }
    }

    /// Whether this record claims shard `s`.
    pub fn is_serving(&self, s: u32) -> (r: bool)
        ensures
            r == claims(*self, s),
    {
        contains_shard(&self.serving_shards, s)
    }
}

} // verus!
