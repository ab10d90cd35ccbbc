//! Names and numbers that the agent shares with its parent.

use vstd::prelude::*;
use vstd::string::StringExecFns;

verus! {

/// The directory that the agent keeps below the working directory.
pub const AGENT_DIR: &'static str = "_mito_node_";

/// The file name of the Unix domain socket.
pub const UDS_SOCKET_NAME: &'static str = "_mito_node_.sock";

/// The TCP port that the agent listens on unless told otherwise.
pub const AGENT_TCP_PORT: u16 = 16666;

/// How a listener's start ended.
#[derive(Debug, Clone, PartialEq, Eq)]
pub enum ListenerResultType {
    /// The listener is bound and serving.
    Success,
    /// The address was already in use.
    AddrInUse,
    /// The start failed for the reason given.
    FailedReason(String),
}

impl ListenerResultType {
    /// The word, or the reason, that the parent is told.
    pub open spec fn text(self) -> Seq<char> {
        match self {
            ListenerResultType::Success => "success"@,
            ListenerResultType::AddrInUse => "addr_in_use"@,
            ListenerResultType::FailedReason(reason) => reason@,
        }
    }

    /// The word, or the reason, that the parent is told.
    pub fn to_string(&self) -> (text: String)
        ensures
            text@ == self.text(),
    {
        match self {
            ListenerResultType::Success => String::from_str("success"),
            ListenerResultType::AddrInUse => String::from_str("addr_in_use"),
            ListenerResultType::FailedReason(reason) => reason.clone(),
        }
    }
}

/// The status code of a message to the parent.
#[derive(Debug, Copy, Clone, PartialEq, Eq, Structural)]
pub enum IpcMessageCode {
    /// The listener started.
    Success,
    /// The listener did not start.
    Failure,
}

impl IpcMessageCode {
    /// The number that stands for this code on the wire.
    pub open spec fn number(self) -> u64 {
        match self {
            IpcMessageCode::Success => 200,
            IpcMessageCode::Failure => 500,
        }
    }

    /// The number that stands for this code on the wire.
    pub fn code(&self) -> (number: u64)
        ensures
            number == self.number(),
    {
        match self {
            IpcMessageCode::Success => 200,
            IpcMessageCode::Failure => 500,
        }
    }
}

} // verus!
