//! Paths of the service's endpoints.

use vstd::prelude::*;

verus! {

pub const HEALTHZ_PATH: &'static str = "/healthz";

pub const READYZ_PATH: &'static str = "/readyz";

pub const STARTZ_PATH: &'static str = "/startz";

pub const INGEST_PATH: &'static str = "/ingest";

pub const API_KEYS_PATH: &'static str = "/api/keys";

pub const API_KEY_PATH: &'static str = "/api/keys/:key";

} // verus!
