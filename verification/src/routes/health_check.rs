//! The liveness probe.

use crate::http::StatusCode;
use vstd::prelude::*;

verus! {

/// The message that the probe leaves in the trace.
pub const HEALTH_CHECK_MESSAGE: &'static str = "health check OK";

/// Answers the liveness probe. It reads nothing and asks nothing of the
/// store, so the answer is the same whether or not the store can be reached.
pub fn health_check() -> (status: StatusCode)
    ensures
        status == StatusCode::Success,
{
    StatusCode::Success
}

} // verus!
