//! Worker metadata and the commands that arrive for it.

pub mod envelope;
pub mod store;
pub mod subscribe;
