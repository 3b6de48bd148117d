use vstd::prelude::*;
use crate::error::EngineError;
use crate::provisioning::{json_int, json_int_at};

verus! {

/// The traffic that is left of `limit` after `used`, both in bytes; a
/// failure of the service where one of them is missing or the difference
/// does not fit an `i64`.
pub open spec fn spec_traffic_left(limit: Option<i64>, used: Option<i64>) -> Result<
    int,
    EngineError,
> {
    match (limit, used) {
        (Some(l), Some(u)) => if i64::MIN <= l - u <= i64::MAX {
            Ok(l - u)
        } else {
            Err(EngineError::UpstreamError)
        },
        _ => Err(EngineError::UpstreamError),
    }
}

/// Returns the traffic that is left of `limit` after `used`.
pub fn traffic_left_from(limit: Option<i64>, used: Option<i64>) -> (r: Result<i64, EngineError>)
    ensures
        match spec_traffic_left(limit, used) {
            Ok(left) => r matches Ok(got) && got == left,
            Err(e) => r == Err::<i64, EngineError>(e),
        },
{
    match (limit, used) {
        (Some(l), Some(u)) => {
            let left: i128 = (l as i128) - (u as i128);
            if left < (i64::MIN as i128) || left > (i64::MAX as i128) {
                Err(EngineError::UpstreamError)
            } else {
                Ok(left as i64)
            }
        },
        _ => Err(EngineError::UpstreamError),
    }
}

/// The traffic limit that the reply `body` names for its first account.
pub open spec fn spec_reply_limit(body: Seq<char>) -> Option<i64> {
    json_int(body, "response"@, 0, "trafficLimitBytes"@)
}

/// The used traffic that the reply `body` names for its first account.
pub open spec fn spec_reply_used(body: Seq<char>) -> Option<i64> {
    json_int(body, "response"@, 0, "usedTrafficBytes"@)
}

/// Reads the traffic that is left to an account from the reply of the
/// provisioning service to a query for it.
pub fn traffic_left(body: &str) -> (r: Result<i64, EngineError>)
    ensures
        match spec_traffic_left(spec_reply_limit(body@), spec_reply_used(body@)) {
            Ok(left) => r matches Ok(got) && got == left,
            Err(e) => r == Err::<i64, EngineError>(e),
        },
{
    let limit = json_int_at(body, "response", 0, "trafficLimitBytes");
    let used = json_int_at(body, "response", 0, "usedTrafficBytes");
    traffic_left_from(limit, used)
}

} // verus!
