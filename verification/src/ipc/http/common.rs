//! The bodies of the HTTP responses.

use vstd::prelude::*;

verus! {

/// A response that says whether the request succeeded.
#[derive(Debug, Clone, PartialEq, Eq)]
pub struct BaseResponse {
    pub success: bool,
    pub message: String,
}

/// The agent's identity.
#[derive(Debug, Clone, PartialEq, Eq)]
pub struct InfoResponse {
    pub name: String,
    pub version: String,
    pub status: String,
}

/// The answer to a process update.
#[derive(Debug, Clone, PartialEq, Eq)]
pub struct UpdateProcessResponse {
    pub success: bool,
    pub message: String,
}

} // verus!
