//! The agent's transports and its channel to the parent.

pub mod http;
pub mod process;
pub mod tcp;
pub mod uds;
