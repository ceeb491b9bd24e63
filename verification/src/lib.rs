//! A gateway core for zero-knowledge virtual machines: a registry of loaded
//! programs keyed by identifier, and the dispatch of execute, prove and verify
//! requests to the engine behind each entry.

pub mod client;
pub mod common;
pub mod endpoints;
pub mod mock_zkvm;
pub mod program;
pub mod status;
pub mod zkvm;
