//! `POST /update_process`.

use crate::helper::text::same_text;
use crate::ipc::http::common::UpdateProcessResponse;
use vstd::prelude::*;
use vstd::string::StringExecFns;

verus! {

/// The path of the endpoint.
pub const UPDATE_PROCESS_PATH: &'static str = "/update_process";

/// Whether `action` is one that the agent knows: start, stop or restart.
pub open spec fn known_action(action: Seq<char>) -> bool {
    action == "start"@ || action == "stop"@ || action == "restart"@
}

/// Answers a process update: a known action is reported as executed, any
/// other as unknown.
pub fn update_process(action: &str) -> (response: UpdateProcessResponse)
    ensures
        response.success == known_action(action@),
        response.message@ == (if known_action(action@) {
            "Process "@ + action@ + " executed successfully"@
        } else {
            "Unknown action"@
        }),
{
    if same_text(action, "start") || same_text(action, "stop") || same_text(action, "restart") {
        UpdateProcessResponse {
            success: true,
            message: String::from_str("Process ").concat(action).concat(" executed successfully"),
        }
    } else {
        UpdateProcessResponse { success: false, message: String::from_str("Unknown action") }
    }
}

} // verus!
