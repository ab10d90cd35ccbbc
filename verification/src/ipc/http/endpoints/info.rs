//! `GET /info`.

use crate::ipc::http::common::InfoResponse;
use vstd::prelude::*;
use vstd::string::StringExecFns;

verus! {

/// The path of the endpoint.
pub const INFO_PATH: &'static str = "/info";

/// The agent's name, version and status.
pub fn get_info() -> (info: InfoResponse)
    ensures
        info.name@ == "mitojs-agent"@,
        info.version@ == "0.1.0"@,
        info.status@ == "running"@,
{
    InfoResponse {
        name: String::from_str("mitojs-agent"),
        version: String::from_str("0.1.0"),
        status: String::from_str("running"),
    }
}

} // verus!
