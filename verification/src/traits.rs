//! Operations that the broker adds to its registries.

pub mod write_to_all_streams;
