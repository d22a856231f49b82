//! The tasks that a session runs.
pub mod regular;
