//! What the log says where a request could not be carried out.

use vstd::prelude::*;

verus! {

pub const ERR_DECODE_PROTOBUF: &'static str = "Failed to decode protobuf in ingest";

pub const ERR_INVALID_CONTENT_TYPE: &'static str = "Invalid content-type";

pub const ERR_INVALID_UTF8_DEVICE_ID: &'static str = "Invalid UTF-8 in device_id in ingest";

pub const ERR_REDIS_CONN: &'static str = "Failed to get Redis connection in ingest";

pub const ERR_REDIS_WRITE: &'static str = "Failed to write to RedisTimeSeries in ingest";

pub const ERR_ISSUE_KEY: &'static str = "Failed to store API key";

pub const ERR_LIST_KEYS: &'static str = "Failed to list API keys";

pub const ERR_REVOKE_KEY: &'static str = "Failed to revoke API key";

pub const ERR_COUNT_ADMIN_KEYS: &'static str = "Failed to count admin API keys";

} // verus!
