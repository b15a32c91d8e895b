//! Core of a minimal block-authoring node: the consensus-mode grammar, the
//! ordered transaction-validity pipeline, the transaction pool, the authoring
//! scheduler state machine, and the bounded seal-command channel that drives
//! manual sealing.

pub mod consensus;
pub mod pipeline;
pub mod pool;
pub mod proposer;
pub mod channel;
pub mod scheduler;
pub mod laws;
pub mod chain_spec;
pub mod rpc;
