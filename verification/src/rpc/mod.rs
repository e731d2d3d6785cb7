//! RPC quorum: the client's response quorum and the consensus engine over
//! provider observations.

pub mod quorum_client;
pub mod quorum_engine;
pub mod quorum_types;
