//! Events exchanged between the host and feature handlers.

use vstd::prelude::*;
use crate::json::JsonValue;

verus! {

/// A request to run one feature action: the request id and the named
/// arguments.
pub struct FeatureActionEvent {
    pub request_id: String,
    pub arguments: JsonValue,
}

/// The outcome of one feature action: the request id it answers, the
/// result or the error text, and how long execution took.
pub struct FeatureActionCompleteEvent {
    pub request_id: String,
    pub result: Result<JsonValue, String>,
    pub execution_time_ms: u64,
}

/// Builds the events around feature actions. Emitting them to the
/// host's event system, and the timing around handler execution, run
/// in the host.
pub struct EventManager;

impl EventManager {
    /// The completion event answering `request_id` with `result`
    /// after `execution_time_ms` milliseconds, all carried unchanged.
    pub fn completion_event(
        request_id: String,
        result: Result<JsonValue, String>,
        execution_time_ms: u64,
    ) -> (r: FeatureActionCompleteEvent)
        ensures
            r.request_id@ == request_id@,
            r.execution_time_ms == execution_time_ms,
            match r.result {
                Ok(v) => result matches Ok(given) && v@ == given@,
                Err(m) => result matches Err(given) && m@ == given@,
            },
    {
        FeatureActionCompleteEvent { request_id, result, execution_time_ms }
    }

    /// Milliseconds elapsed from `started_ms` to `ended_ms` on one
    /// clock, zero if the clock went backwards.
    pub fn elapsed_ms(started_ms: u64, ended_ms: u64) -> (r: u64)
        ensures
            r == if ended_ms >= started_ms {
                ended_ms - started_ms
            } else {
                0int
            },
    {
        if ended_ms >= started_ms {
            ended_ms - started_ms
        } else {
            0
        }
    }
}

} // verus!
