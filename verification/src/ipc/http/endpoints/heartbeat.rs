//! `POST /heartbeat`.

use crate::data_processor::store::{updated, PartialProcessStore, Store};
use crate::ipc::http::common::BaseResponse;
use vstd::prelude::*;
use vstd::string::StringExecFns;

verus! {

/// The path of the endpoint.
pub const HEARTBEAT_PATH: &'static str = "/heartbeat";

/// The body of a heartbeat request.
#[derive(Debug, Clone, Copy, PartialEq, Eq, Structural)]
pub struct HeartbeatRequest {
    pub process_id: u16,
}

/// The partial update that a heartbeat at `now` makes: the time alone.
pub open spec fn heartbeat_update(now: u64) -> PartialProcessStore {
    PartialProcessStore { uds_port: None, latest_heartbeat_time: Some(now) }
}

/// Records a worker's heartbeat at `now`, in seconds since the Unix epoch:
/// the time of a registered worker is set and its port kept, and a heartbeat
/// of an unknown worker changes nothing. The answer is `ok` either way.
pub fn heartbeat(store: &mut Store, payload: HeartbeatRequest, now: u64) -> (response: BaseResponse)
    ensures
        final(store)@ == updated(old(store)@, payload.process_id, heartbeat_update(now)),
        response.success,
        response.message@ == "ok"@,
{
    store.update(
        &payload.process_id,
        PartialProcessStore { uds_port: None, latest_heartbeat_time: Some(now) },
    );
    BaseResponse { success: true, message: String::from_str("ok") }
}

} // verus!
