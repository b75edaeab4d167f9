//! Shard-local failure detection and dissemination.
//!
//! Each shard context runs one detector: it periodically probes a randomly
//! chosen eligible peer, classifies a failed probe as a death, and
//! disseminates the death both to co-located shards and to the cluster
//! gossip layer. The detector itself is a state machine over plain values;
//! the surrounding runtime performs the sleeps, probes and deliveries and
//! feeds the outcomes back in.

pub mod detector;
mod random;
pub mod registry;
