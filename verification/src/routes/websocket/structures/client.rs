use crate::registry::Registry;
use vstd::prelude::*;

verus! {

/// One field of a JSON document, as the gateway logic reads it.
pub enum JsonField {
    /// The key is not there.
    Absent,
    Null,
    Bool(bool),
    /// A number that is a non-negative integer fitting in 64 bits.
    UInt(u64),
    /// Any other number.
    OtherNumber,
    Text(String),
    Array,
    /// An object, with its JSON text.
    Object(String),
}

impl JsonField {
    /// Whether the key is there (whatever its value).
    pub open spec fn present(&self) -> bool {
        !(self is Absent)
    }

    pub fn is_present(&self) -> (r: bool)
        ensures
            r == self.present(),
    {
        match self {
            JsonField::Absent => false,
            _ => true,
        }
    }
}

/// What a bot sent back for an interaction, kept for the HTTP side.
pub struct Interaction {
    pub data: JsonField,
}

/// Statistics of one shard.
pub struct Shard {
    pub shard_id: usize,
    pub development: bool,
    pub shard_hash: String,
    pub send_ping: u64,
    pub receibe_ping: u64,
    pub sending: u64,
    pub received: u64,
    pub disconnected: bool,
}

/// Sharding information of a client.
pub struct Shardings {
    pub id: u64,
    pub encode: bool,
    pub decode: bool,
    /// Newest first.
    pub shards_stats: Vec<Shard>,
    /// Newest first.
    pub shards_hash: Vec<String>,
}

/// The Discord application behind a client.
pub struct Application {
    pub public_key: String,
    pub id: String,
    pub _flags: u64,
}

/// The websocket side of a client; `T` is the channel that reaches it.
pub struct ClientWs<T> {
    pub _id: String,
    pub tx: T,
    pub shard_in: usize,
    pub shard_total: usize,
    /// The shards served through this connection.
    pub shards: Vec<usize>,
    pub others: Shardings,
    pub session_id: String,
}

/// A bot connected to the gateway.
pub struct ClientBot<T> {
    pub ws: ClientWs<T>,
    pub application_bot: Application,
}

impl<T> ClientBot<T> {
    pub fn update_id(&self) -> (r: &String)
        ensures
            r == self.ws._id,
    {
        &self.ws._id
    }

    pub fn update_tx(&self) -> (r: &T)
        ensures
            r == self.ws.tx,
    {
        &self.ws.tx
    }
}

/// The connected bots, by id.
pub type Clients<T> = Registry<ClientBot<T>>;

/// What bots sent back for interactions, by interaction id.
pub type Interactions = Registry<Interaction>;

/// The `d` object of a gateway command.
pub struct CommandPayload {
    pub flags: JsonField,
    pub encode: JsonField,
    pub decode: JsonField,
    pub public_key: JsonField,
    pub shard_id: JsonField,
    pub session_id: JsonField,
}

/// A command that a bot sends over the websocket.
pub struct GatewayCommand {
    /// `type`.
    pub kind: JsonField,
    /// `d`, when the key is there; its fields are absent unless it is an object.
    pub d: Option<CommandPayload>,
    /// `id`.
    pub id: JsonField,
    /// `data`.
    pub data: JsonField,
}

} // verus!
