//! One module for each endpoint.

pub mod heartbeat;
pub mod info;
pub mod update_process;
