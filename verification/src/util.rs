//! Small helpers shared by the workers.

pub mod retry;
