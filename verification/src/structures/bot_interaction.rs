use crate::structures::connection_state::ConnectionStateKraken;
use std::collections::HashMap;
use vstd::prelude::*;

verus! {

/// What is known of one bot: its connection, its sessions and its shards.
pub struct BotInteraction {
    connection_state: ConnectionStateKraken,
    id: String,
    bot_name: String,
    public_key: String,
    date: u64,
    session: HashMap<String, ConnectionStateKraken>,
    /// When set, connections from anywhere but the local host are refused.
    localhost: bool,
    /// `/gateway` (POST).
    check_gateway: bool,
    /// `/gateway` (GET).
    secret_via_gateway: String,
    /// Shards connected.
    shards: Vec<u64>,
    /// Shards that died.
    shards_died: Vec<u64>,
    /// Latency of each shard.
    shards_stats: Vec<u64>,
    /// `/gateway?status_profile`.
    status: bool,
}

} // verus!
