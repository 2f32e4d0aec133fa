//! Words of the store's command language.

use vstd::prelude::*;

verus! {

pub const PING_CMD: &'static str = "PING";

pub const PONG_CMD: &'static str = "PONG";

pub const REDIS_CMD_TS_ADD: &'static str = "TS.ADD";

pub const REDIS_LABELS_LABEL: &'static str = "LABELS";

pub const REDIS_LABEL_DEVICE_ID: &'static str = "device_id";

pub const REDIS_LABEL_DOMAIN: &'static str = "domain";

} // verus!
