//! Names of the environment variables and what holds where one is not set.

use vstd::prelude::*;

verus! {

pub const BIND_ADDRESS_ENV_VAR: &'static str = "BIND_ADDRESS";

pub const DEFAULT_BIND_ADDRESS: &'static str = "0.0.0.0:20120";

pub const DEFAULT_LOG_LEVEL: &'static str = "INFO";

pub const DEFAULT_REDIS_URL: &'static str = "redis://localhost:6379";

pub const DEFAULT_SENSOR_DATUM_PREFIX: &'static str = "signalstashrs";

pub const ENV_SENSOR_DATUM_PREFIX: &'static str = "SENSOR_DATUM_PREFIX";

pub const LOG_LEVEL_ENV_VAR: &'static str = "LOG_LEVEL";

pub const REDIS_URL_ENV_VAR: &'static str = "REDIS_URL";

} // verus!
