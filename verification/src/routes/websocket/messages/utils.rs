use vstd::prelude::*;

verus! {

/// Command types that a bot sends over the websocket.
pub const REGISTER_CLIENT: u64 = 1;

pub const PING_CLIENT: u64 = 3;

pub const REGISTER_SHARDING: u64 = 4;

pub const CLIENT_RETURN_METADATA_FOR_API: u64 = 5;

pub const RESUME_GATEWAY_MASTER: u64 = 6;

pub const RESUME_SHARD: u64 = 7;

} // verus!
