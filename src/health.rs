use vstd::prelude::*;

verus! {

/// One complete round of local health probes.
///
/// A probe that failed for any reason is recorded as `false`; every field is
/// always set, and a snapshot is published as a whole.
#[derive(Clone, Copy, Debug, PartialEq, Eq, Structural)]
pub struct HealthSnapshot {
    pub direct_link_healthy: bool,
    pub gateway_v4_healthy: bool,
    pub gateway_v6_healthy: bool,
}

/// A node may serve when serving is allowed by configuration, the direct link
/// to the peer answers, and at least one of the two gateways answers.
///
/// The direct link is load-bearing: without it a node is never ready.
pub open spec fn health_ready(allow_serve: bool, h: HealthSnapshot) -> bool {
    &&& allow_serve
    &&& h.direct_link_healthy
    &&& (h.gateway_v4_healthy || h.gateway_v6_healthy)
}

impl HealthSnapshot {
    pub open spec fn unhealthy_spec() -> HealthSnapshot {
        HealthSnapshot { direct_link_healthy: false, gateway_v4_healthy: false, gateway_v6_healthy: false }
    }

    /// The conservative snapshot a node starts with: nothing answered yet.
    pub fn unhealthy() -> (r: HealthSnapshot)
        ensures
            r == HealthSnapshot::unhealthy_spec(),
    {
        HealthSnapshot {
            direct_link_healthy: false,
            gateway_v4_healthy: false,
            gateway_v6_healthy: false,
        }
    }

    /// Assembles the results of the three probes of one cycle.
    pub fn from_probes(direct: bool, v4: bool, v6: bool) -> (r: HealthSnapshot)
        ensures
            r.direct_link_healthy == direct,
            r.gateway_v4_healthy == v4,
            r.gateway_v6_healthy == v6,
    {
        HealthSnapshot { direct_link_healthy: direct, gateway_v4_healthy: v4, gateway_v6_healthy: v6 }
    }

    /// Whether this snapshot is sufficient to serve, given the configured
    /// permission to serve at all.
    pub fn ready_to_serve(&self, allow_serve: bool) -> (r: bool)
        ensures
            r == health_ready(allow_serve, *self),
            !self.direct_link_healthy ==> !r,
    {
        allow_serve && self.direct_link_healthy && (self.gateway_v4_healthy || self.gateway_v6_healthy)
    }
}

/// Without a healthy direct link a node is never ready to serve, whatever its
/// gateways report and whatever its configuration allows.
pub proof fn lemma_direct_link_required(allow_serve: bool, h: HealthSnapshot)
    requires
        !h.direct_link_healthy,
    ensures
        !health_ready(allow_serve, h),
{
}

} // verus!
