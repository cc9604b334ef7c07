use crate::routes::websocket::commands::handler::CommandOutcome;
use crate::routes::websocket::commands::client::register_shard::{is_alphanumeric, new_shard, random_alphanumeric};
use crate::routes::websocket::messages::gateway::{ready, ready_message};
use crate::routes::websocket::structures::client::{
    Application, ClientBot, ClientWs, Clients, GatewayCommand, JsonField, Shard, Shardings,
};
use crate::routes::websocket::websocket_server::update_state;
use vstd::prelude::*;

verus! {

/// The flags kept for a client: bit 0 always, bit 1 when bit 0 of the requested
/// flags is set, bit 2 when bit 1 of the requested flags is set.
pub open spec fn flag_count(flags: u64) -> u64 {
    (1 + 2 * (flags % 2) + 4 * ((flags / 2) % 2)) as u64
}

/// Computes the flags kept for a client: each `flag` of 0, 1, 2 with
/// `flag & flags == flag` adds `1 << flag`.
pub fn compute_flag_count(flags: u64) -> (r: u64)
    ensures
        r == flag_count(flags),
        r % 2 == 1,
        r <= 7,
{
    let mut count: u64 = 0;
    assert((0u64 & flags) == 0u64) by (bit_vector);
    assert(((1u64 & flags) == 1u64) == (flags % 2 == 1)) by (bit_vector);
    assert(((2u64 & flags) == 2u64) == ((flags / 2) % 2 == 1)) by (bit_vector);
    assert(1u64 << 0u64 == 1) by (bit_vector);
    assert(1u64 << 1u64 == 2) by (bit_vector);
    assert(1u64 << 2u64 == 4) by (bit_vector);
    if (0u64 & flags) == 0u64 {
        count = count + (1u64 << 0u64);
    }
    if (1u64 & flags) == 1u64 {
        count = count + (1u64 << 1u64);
    }
    if (2u64 & flags) == 2u64 {
        count = count + (1u64 << 2u64);
    }
    count
}

/// Whether a registration stops on malformed data: the flags are not an
/// unsigned integer, or `encode` or `decode` is given while `encode` is not a
/// boolean.
pub open spec fn register_client_fails(data: GatewayCommand, shard_in: usize) -> bool {
    shard_in == 0 && match data.d {
        Some(p) => p.flags.present() && (!(p.flags is UInt) || ((p.encode.present()
            || p.decode.present()) && !(p.encode is Bool))),
        None => false,
    }
}

pub fn register_client_is_malformed(data: &GatewayCommand, shard_in: usize) -> (r: bool)
    ensures
        r == register_client_fails(*data, shard_in),
{
    if shard_in != 0 {
        return false;
    }
    match &data.d {
        Some(p) => {
            if !p.flags.is_present() {
                return false;
            }
            let flags_ok = match p.flags {
                JsonField::UInt(_) => true,
                _ => false,
            };
            let encode_ok = match p.encode {
                JsonField::Bool(_) => true,
                _ => false,
            };
            !flags_ok || ((p.encode.is_present() || p.decode.is_present()) && !encode_ok)
        },
        None => false,
    }
}

/// Length of the session id given to a registered client.
pub const SESSION_ID_LENGTH: usize = 64;

/// Length of the hash given to a shard.
pub const SHARD_HASH_LENGTH: usize = 15;

/// Whether `s` is `len` ASCII letters and digits.
pub open spec fn alphanumeric_text(s: Seq<char>, len: nat) -> bool {
    s.len() == len && forall|i: int| 0 <= i < len ==> is_alphanumeric(#[trigger] s[i])
}

/// What a client registered with these settings looks like: its master shard is
/// the only one in its statistics, under `hash`, and it holds `session_id`.
pub open spec fn fresh_client<T>(
    c: ClientBot<T>,
    id: Seq<char>,
    tx: T,
    pub_key: Seq<char>,
    shard_in: usize,
    shard_total: usize,
    flags: u64,
    encode: bool,
    decode: bool,
    session_id: String,
    hash: String,
) -> bool {
    &&& c.ws._id@ == id
    &&& c.ws.tx == tx
    &&& c.ws.shard_in == shard_in
    &&& c.ws.shard_total == shard_total
    &&& c.ws.shards@ == seq![shard_in]
    &&& c.ws.others.id == 0
    &&& c.ws.others.encode == encode
    &&& c.ws.others.decode == decode
    &&& c.ws.others.shards_stats@ == seq![new_shard(shard_in, hash)]
    &&& c.ws.others.shards_hash@ == seq![hash]
    &&& c.ws.session_id == session_id
    &&& c.application_bot.public_key@ == pub_key
    &&& c.application_bot.id@ == id
    &&& c.application_bot._flags == flags
}

/// The effect of a registration that gives the client `session_id` and its
/// master shard `hash`. Only the master shard registers, and only with
/// `d.flags`; the client then replaces whatever was registered under `id`, and
/// is told so with `GATEWAY_READY`, which carries the session id and the shard
/// statistics. The `decode` setting is read from the `encode` field.
pub open spec fn register_client_post<T>(
    data: GatewayCommand,
    tx: T,
    before: Map<Seq<char>, ClientBot<T>>,
    after: Map<Seq<char>, ClientBot<T>>,
    id: Seq<char>,
    d: (String, usize, usize, String),
    session_id: String,
    hash: String,
    r: CommandOutcome,
) -> bool {
    match data.d {
        Some(p) => if d.1 == 0 && p.flags.present() {
            let flags = flag_count(p.flags->UInt_0);
            let encode = if p.encode.present() { p.encode->Bool_0 } else { false };
            let decode = if p.decode.present() { p.encode->Bool_0 } else { false };
            &&& after == before.insert(id, after[id])
            &&& fresh_client(after[id], id, tx, d.0@, d.1, d.2, flags, encode, decode, session_id, hash)
            &&& r matches CommandOutcome::Send(m) && m@ == ready_message(
                d.1 as nat,
                d.2 as nat,
                id,
                flags as nat,
                session_id@,
                seq![new_shard(d.1, hash)],
            )
        } else {
            after == before && r is Nothing
        },
        None => after == before && r is Nothing,
    }
}

/// `register_client_post` for some random session id of `SESSION_ID_LENGTH`
/// letters and digits and some shard hash of `SHARD_HASH_LENGTH` letters and
/// digits.
pub open spec fn register_client_post_any<T>(
    data: GatewayCommand,
    tx: T,
    before: Map<Seq<char>, ClientBot<T>>,
    after: Map<Seq<char>, ClientBot<T>>,
    id: Seq<char>,
    d: (String, usize, usize, String),
    r: CommandOutcome,
) -> bool {
    exists|session_id: String, hash: String|
        alphanumeric_text(session_id@, SESSION_ID_LENGTH as nat) && alphanumeric_text(
            hash@,
            SHARD_HASH_LENGTH as nat,
        ) && #[trigger] register_client_post(data, tx, before, after, id, d, session_id, hash, r)
}

/// Registers bot `id` from its master shard with a fresh random session id and
/// master shard hash; `d` holds the connection's key, shard index, shard count
/// and secret.
pub fn register_client<T>(
    data: GatewayCommand,
    tx: T,
    clients: &mut Clients<T>,
    id: &String,
    d: (String, usize, usize, String),
) -> (r: CommandOutcome)
    requires
        !register_client_fails(data, d.1),
    ensures
        register_client_post_any(data, tx, old(clients)@, final(clients)@, id@, d, r),
{
    let session_id = random_alphanumeric(SESSION_ID_LENGTH);
    let hash = random_alphanumeric(SHARD_HASH_LENGTH);
    let ghost s = session_id;
    let ghost h = hash;
    let ghost tx0 = tx;
    let r = register_client_with(data, tx, clients, id, d, session_id, hash);
    proof {
        assert(register_client_post(data, tx0, old(clients)@, clients@, id@, d, s, h, r));
    }
    r
}

/// Registers bot `id` from its master shard, giving it `session_id` and its
/// master shard `hash` (see `register_client_post`).
pub fn register_client_with<T>(
    data: GatewayCommand,
    tx: T,
    clients: &mut Clients<T>,
    id: &String,
    d: (String, usize, usize, String),
    session_id: String,
    hash: String,
) -> (r: CommandOutcome)
    requires
        !register_client_fails(data, d.1),
    ensures
        register_client_post(data, tx, old(clients)@, final(clients)@, id@, d, session_id, hash, r),
{
    let ghost data0 = data;
    let ghost hash0 = hash;
    let ghost tx0 = tx;
    let (pub_key, shard_in, shard_total, _secret_key) = d;
    if shard_in != 0 {
        return CommandOutcome::Nothing;
    }
    let payload = match data.d {
        Some(p) => p,
        None => {
            return CommandOutcome::Nothing;
        },
    };
    if !payload.flags.is_present() {
        return CommandOutcome::Nothing;
    }
    let flags = match payload.flags {
        JsonField::UInt(n) => n,
        _ => {
            proof {
                assert(false);
            }
            0
        },
    };
    let encode = if payload.encode.is_present() {
        match payload.encode {
            JsonField::Bool(b) => b,
            _ => {
                proof {
                    assert(false);
                }
                false
            },
        }
    } else {
        false
    };
    let decode = if payload.decode.is_present() {
        match payload.encode {
            JsonField::Bool(b) => b,
            _ => {
                proof {
                    assert(false);
                }
                false
            },
        }
    } else {
        false
    };
    let flag_count = compute_flag_count(flags);
    let mut shards: Vec<usize> = Vec::new();
    shards.push(shard_in);
    let mut shards_hash: Vec<String> = Vec::new();
    shards_hash.push(hash.clone());
    let mut shards_stats: Vec<Shard> = Vec::new();
    shards_stats.push(
        Shard {
            shard_id: shard_in,
            development: false,
            shard_hash: hash,
            send_ping: 0,
            receibe_ping: 0,
            sending: 0,
            received: 0,
            disconnected: false,
        },
    );
    let sharding_info = Shardings {
        id: 0,
        encode: encode,
        decode: decode,
        shards_stats: shards_stats,
        shards_hash: shards_hash,
    };
    let client = ClientBot {
        ws: ClientWs {
            _id: id.clone(),
            tx: tx,
            shard_in: shard_in,
            shard_total: shard_total,
            shards: shards,
            others: sharding_info,
            session_id: session_id,
        },
        application_bot: Application { public_key: pub_key, id: id.clone(), _flags: flag_count },
    };
    update_state(clients, id);
    let message = ready(
        shard_in,
        shard_total,
        client.application_bot.id.as_str(),
        flag_count,
        client.ws.session_id.as_str(),
        &client.ws.others.shards_stats,
    );
    proof {
        assert(client.ws.others.shards_stats@ =~= seq![new_shard(shard_in, hash0)]);
    }
    let ghost removed = clients@;
    clients.insert(id.clone(), client);
    proof {
        assert(removed.insert(id@, clients@[id@]) =~= old(clients)@.insert(id@, clients@[id@]));
    }
    CommandOutcome::Send(message)
}

} // verus!
