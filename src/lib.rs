//! Failover coordination for a pair of redundant nodes.
//!
//! Each node measures its own health, exports it together with the shards it
//! serves, polls its peer, and decides per shard whether to serve it. The
//! decisions are made so that two nodes never serve the same shard.
use vstd::prelude::*;

pub mod health;
pub mod node_state;
pub mod decider;
pub mod peer;
pub mod config;
pub mod cluster;
pub mod codec;

verus! {

} // verus!
