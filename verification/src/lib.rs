//! A local agent's core: the worker registry, the command envelope decoder,
//! the decisions of the accept loop and of each connection, and the status
//! line reported to a supervising parent.

pub mod data_processor;
pub mod helper;
pub mod ipc;
