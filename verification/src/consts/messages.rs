//! Bodies of the probe responses.

use vstd::prelude::*;

verus! {

pub const OK: &'static str = "ok";

pub const READY: &'static str = "ready";

pub const STARTED: &'static str = "started";

} // verus!
