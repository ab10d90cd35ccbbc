//! What the HTTP surface computes, apart from serving it.

pub mod common;
pub mod endpoints;
pub mod http;
