//! A request-routing broker core: name registries, bounded retry, event
//! fan-out and the per-connection worker state machines, with their proofs.

pub mod app_server;
pub mod listener;
pub mod protocol_server;
pub mod traits;
pub mod types;
pub mod util;
