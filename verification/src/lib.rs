//! Consensus-facing execution core of a validator node: the protocol-version
//! vote cache, the transaction scope of a block, the block execution context
//! with the proposal replay protocol, and the status mapping of the read path.

pub mod block_execution_context;
pub mod bytes;
pub mod consensus_types;
pub mod execution_result;
pub mod identity_nonce;
pub mod process_proposal;
pub mod protocol_version;
pub mod query;
pub mod replay_laws;
pub mod transaction;
pub mod version_counters;
