//! The data the broker works on: connection handles, registries and messages.

pub mod message;
pub mod stream_map;
