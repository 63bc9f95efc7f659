use vstd::prelude::*;

use crate::node_state::NodeState;

verus! {

/// Why a fetch of the peer's state produced no state.
#[derive(Clone, Copy, Debug, PartialEq, Eq, Structural)]
pub enum PeerFetchError {
    /// No connection could be set up in time.
    Connect,
    /// The peer answered with something that is not a state record.
    Protocol,
    /// The request ran into its time bound.
    Timeout,
}

/// What a poll of the peer means to the decider: a state, or nothing at all.
/// Every kind of failure is the same `Unreachable`.
#[derive(Clone, Debug)]
pub enum PeerOutcome {
    Answered(NodeState),
    Unreachable,
}

/// Classifies the result of one fetch that took `elapsed_ms` against the
/// time bound `bound_ms`. An answer counts only when it came strictly before
/// the bound: one that arrives at the bound is as good as none.
pub fn classify_fetch(elapsed_ms: u64, bound_ms: u64, fetched: Result<NodeState, PeerFetchError>) -> (r: PeerOutcome)
    ensures
        r is Answered <==> (fetched is Ok && elapsed_ms < bound_ms),
        r is Answered ==> r->Answered_0 == fetched->Ok_0,
{
    match fetched {
        Ok(st) => {
            if elapsed_ms < bound_ms {
                PeerOutcome::Answered(st)
            } else {
                PeerOutcome::Unreachable
            }
        },
        Err(_) => PeerOutcome::Unreachable,
    }
}

} // verus!
