//! The start of the HTTP server, as far as it is decided rather than done.

use crate::helper::constants::{IpcMessageCode, ListenerResultType};
use crate::helper::text::{contains_text, decimal, decimal_text, occurs_in};
use crate::ipc::process::IpcMessage;
use vstd::prelude::*;
use vstd::string::StringExecFns;

verus! {

/// The name that the agent answers with at `/`.
pub fn get_agent_name() -> (name: &'static str)
    ensures
        name@ == "mitojs-agent"@,
{
    "mitojs-agent"
}

/// The address to look up and bind: the host, a colon and the port.
pub fn bind_address(host: &str, port: u16) -> (address: String)
    ensures
        address@ == host@ + ":"@ + decimal(port as nat),
{
    let number = decimal_text(port as u64);
    String::from_str(host).concat(":").concat(number.as_str())
}

/// Why a server did not start.
#[derive(Debug, Clone, PartialEq, Eq)]
pub enum StartupError {
    /// An error of the operating system: whether it reports the address as
    /// in use, and its text.
    Io { addr_in_use: bool, text: String },
    /// Any other error, known by its text alone.
    Other { text: String },
}

impl StartupError {
    /// The text of the error.
    pub open spec fn text(self) -> Seq<char> {
        match self {
            StartupError::Io { text, .. } => text@,
            StartupError::Other { text } => text@,
        }
    }

    /// Whether the error says that the address is in use: an error of the
    /// operating system by its kind, and it or any other by its text.
    pub open spec fn addr_in_use(self) -> bool {
        match self {
            StartupError::Io { addr_in_use, text } => addr_in_use || occurs_in(
                text@,
                "Address already in use"@,
            ),
            StartupError::Other { text } => occurs_in(text@, "Address already in use"@),
        }
    }
}

/// Classifies a failed start: the address is in use, which the kind of an
/// operating-system error says or, failing that, the text of any error; or
/// the start failed for the reason that the error's text gives.
pub fn classify_server_error(error: &StartupError) -> (result: ListenerResultType)
    ensures
        error.addr_in_use() ==> result == ListenerResultType::AddrInUse,
        !error.addr_in_use() ==> result is FailedReason && result.text() == error.text(),
{
    match error {
        StartupError::Io { addr_in_use, text } => {
            if *addr_in_use || contains_text(text.as_str(), "Address already in use") {
                ListenerResultType::AddrInUse
            } else {
                ListenerResultType::FailedReason(text.clone())
            }
        },
        StartupError::Other { text } => {
            if contains_text(text.as_str(), "Address already in use") {
                ListenerResultType::AddrInUse
            } else {
                ListenerResultType::FailedReason(text.clone())
            }
        },
    }
}

/// The code of the message that reports a start to the parent.
pub open spec fn startup_code(started: bool) -> IpcMessageCode {
    if started {
        IpcMessageCode::Success
    } else {
        IpcMessageCode::Failure
    }
}

/// The text of the message that reports `outcome` to the parent.
pub open spec fn startup_text(outcome: Result<(), StartupError>) -> Seq<char> {
    match outcome {
        Ok(_) => "success"@,
        Err(error) => if error.addr_in_use() {
            "addr_in_use"@
        } else {
            error.text()
        },
    }
}

/// The message that reports a listener's start to the parent: `success`
/// with the code for success, or the classified failure with the code for
/// failure.
pub fn startup_message(outcome: &Result<(), StartupError>) -> (message: IpcMessage)
    ensures
        message.code == startup_code(outcome is Ok),
        message.message@ == startup_text(*outcome),
{
    match outcome {
        Ok(_) => IpcMessage {
            code: IpcMessageCode::Success,
            message: ListenerResultType::Success.to_string(),
        },
        Err(error) => IpcMessage {
            code: IpcMessageCode::Failure,
            message: classify_server_error(error).to_string(),
        },
    }
}

} // verus!
