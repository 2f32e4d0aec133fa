//! What the log says where the store does not answer a readiness probe.

use vstd::prelude::*;

verus! {

pub const MSG_REDIS_CONNECTIVITY_ERROR: &'static str = "Redis connectivity check failed";

pub const MSG_UNEXPECTED_PING_RESPONSE: &'static str = "Unexpected PING response: ";

} // verus!
