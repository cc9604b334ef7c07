use crate::routes::websocket::commands::handler::CommandOutcome;
use crate::routes::websocket::messages::gateway::{shard_info, shard_info_message};
use crate::routes::websocket::structures::client::{ClientBot, Clients, GatewayCommand, JsonField, Shard};
use rand::distributions::Alphanumeric;
use rand::Rng;
use vstd::prelude::*;

verus! {

/// A letter or a digit of ASCII.
pub open spec fn is_alphanumeric(c: char) -> bool {
    ('0' <= c <= '9') || ('A' <= c <= 'Z') || ('a' <= c <= 'z')
}

/// `thread_rng().sample_iter(Alphanumeric).take(len)` of rand, collected into a
/// `String`: `len` random ASCII letters and digits.
#[verifier::external_body]
pub(crate) fn random_alphanumeric(len: usize) -> (r: String)
    ensures
        r@.len() == len,
        forall|i: int| 0 <= i < len ==> is_alphanumeric(#[trigger] r@[i]),
{
    rand::thread_rng().sample_iter(Alphanumeric).take(len).map(char::from).collect()
}

/// Whether a shard registration stops on malformed data: for a registered bot,
/// the key is not text, or the key matches and the shard id is not an unsigned
/// integer.
pub open spec fn register_shard_fails<T>(data: GatewayCommand, clients: Map<Seq<char>, ClientBot<T>>, id: Seq<char>) -> bool {
    match data.d {
        Some(p) => p.public_key.present() && p.shard_id.present() && clients.contains_key(id) && (!(
        p.public_key is Text) || (p.public_key->Text_0@ == clients[id].application_bot.public_key@
            && !(p.shard_id is UInt))),
        None => false,
    }
}

pub fn register_shard_is_malformed<T>(data: &GatewayCommand, clients: &Clients<T>, id: &String) -> (r: bool)
    ensures
        r == register_shard_fails(*data, clients@, id@),
{
    match &data.d {
        Some(p) => {
            if !p.public_key.is_present() || !p.shard_id.is_present() {
                return false;
            }
            match clients.get(id) {
                Some(client) => match &p.public_key {
                    JsonField::Text(key) => {
                        if *key == client.application_bot.public_key {
                            match p.shard_id {
                                JsonField::UInt(_) => false,
                                _ => true,
                            }
                        } else {
                            false
                        }
                    },
                    _ => true,
                },
                None => false,
            }
        },
        None => false,
    }
}

/// The statistics a shard starts with.
pub open spec fn new_shard(shard_id: usize, hash: String) -> Shard {
    Shard {
        shard_id: shard_id,
        development: false,
        shard_hash: hash,
        send_ping: 0,
        receibe_ping: 0,
        sending: 0,
        received: 0,
        disconnected: false,
    }
}

/// `after` is `before` with a new shard, and its hash, put first.
pub open spec fn shard_added<T>(before: ClientBot<T>, after: ClientBot<T>, shard_id: usize, hash: String) -> bool {
    &&& after.ws._id == before.ws._id
    &&& after.ws.tx == before.ws.tx
    &&& after.ws.shard_in == before.ws.shard_in
    &&& after.ws.shard_total == before.ws.shard_total
    &&& after.ws.shards == before.ws.shards
    &&& after.ws.session_id == before.ws.session_id
    &&& after.ws.others.id == before.ws.others.id
    &&& after.ws.others.encode == before.ws.others.encode
    &&& after.ws.others.decode == before.ws.others.decode
    &&& after.ws.others.shards_stats@ == seq![new_shard(shard_id, hash)] + before.ws.others.shards_stats@
    &&& after.ws.others.shards_hash@ == seq![hash] + before.ws.others.shards_hash@
    &&& after.application_bot == before.application_bot
}

/// Whether a shard with this id is already among the statistics.
pub open spec fn shard_known(stats: Seq<Shard>, shard_id: usize) -> bool {
    exists|i: int| 0 <= i < stats.len() && (#[trigger] stats[i]).shard_id == shard_id
}

/// The effect of a shard registration with the hash `hash`: when `d` names the
/// registered bot's public key and a shard id that is not known yet, the shard
/// is put first in the bot's statistics and the statistics are sent back;
/// otherwise nothing happens.
pub open spec fn register_shard_post<T>(
    data: GatewayCommand,
    before: Map<Seq<char>, ClientBot<T>>,
    after: Map<Seq<char>, ClientBot<T>>,
    id: Seq<char>,
    hash: String,
    r: CommandOutcome,
) -> bool {
    match data.d {
        Some(p) => if p.public_key.present() && p.shard_id.present() && before.contains_key(id)
            && p.public_key->Text_0@ == before[id].application_bot.public_key@ && !shard_known(
            before[id].ws.others.shards_stats@,
            p.shard_id->UInt_0 as usize,
        ) {
            &&& after == before.insert(id, after[id])
            &&& shard_added(before[id], after[id], p.shard_id->UInt_0 as usize, hash)
            &&& r matches CommandOutcome::Send(m) && m@ == shard_info_message(after[id].ws.others.shards_stats@)
        } else {
            after == before && r is Nothing
        },
        None => after == before && r is Nothing,
    }
}

/// `register_shard_post` for some hash of fifteen letters and digits.
pub open spec fn register_shard_post_any<T>(
    data: GatewayCommand,
    before: Map<Seq<char>, ClientBot<T>>,
    after: Map<Seq<char>, ClientBot<T>>,
    id: Seq<char>,
    r: CommandOutcome,
) -> bool {
    exists|hash: String|
        hash@.len() == 15 && (forall|i: int| 0 <= i < 15 ==> is_alphanumeric(#[trigger] hash@[i]))
            && #[trigger] register_shard_post(data, before, after, id, hash, r)
}

/// Registers a shard of bot `id` under the given hash (see `register_shard_post`).
pub fn register_shard_with_hash<T>(data: GatewayCommand, clients: &mut Clients<T>, id: &String, hash: String) -> (r: CommandOutcome)
    requires
        !register_shard_fails(data, old(clients)@, id@),
    ensures
        register_shard_post(data, old(clients)@, final(clients)@, id@, hash, r),
{
    let ghost data0 = data;
    let payload = match data.d {
        Some(p) => p,
        None => {
            return CommandOutcome::Nothing;
        },
    };
    if !payload.public_key.is_present() || !payload.shard_id.is_present() {
        return CommandOutcome::Nothing;
    }
    let matches_key = match clients.get(id) {
        Some(client) => match &payload.public_key {
            JsonField::Text(key) => *key == client.application_bot.public_key,
            _ => {
                proof {
                    assert(false);
                }
                false
            },
        },
        None => {
            return CommandOutcome::Nothing;
        },
    };
    if !matches_key {
        return CommandOutcome::Nothing;
    }
    let shard_id = match payload.shard_id {
        JsonField::UInt(n) => n as usize,
        _ => {
            proof {
                assert(false);
            }
            0
        },
    };
    let ghost before = clients@;
    let mut client = match clients.remove(id) {
        Some(c) => c,
        None => {
            proof {
                assert(false);
            }
            return CommandOutcome::Nothing;
        },
    };
    let mut registered = false;
    let mut position: usize = 0;
    while position < client.ws.others.shards_stats.len()
        invariant
            position <= client.ws.others.shards_stats@.len(),
            client == before[id@],
            registered == exists|i: int|
                0 <= i < position && (#[trigger] client.ws.others.shards_stats@[i]).shard_id == shard_id,
        decreases client.ws.others.shards_stats@.len() - position,
    {
        if client.ws.others.shards_stats[position].shard_id == shard_id {
            registered = true;
        }
        position = position + 1;
    }
    if registered {
        clients.insert(id.clone(), client);
        proof {
            assert(clients@ =~= before);
        }
        return CommandOutcome::Nothing;
    }
    let ghost old_client = client;
    client.ws.others.shards_hash.insert(0, hash.clone());
    client.ws.others.shards_stats.insert(
        0,
        Shard {
            shard_id: shard_id,
            development: false,
            shard_hash: hash,
            send_ping: 0,
            receibe_ping: 0,
            sending: 0,
            received: 0,
            disconnected: false,
        },
    );
    proof {
        assert(client.ws.others.shards_stats@ =~= seq![new_shard(shard_id, hash)] + old_client.ws.others.shards_stats@);
        assert(client.ws.others.shards_hash@ =~= seq![hash] + old_client.ws.others.shards_hash@);
    }
    let message = shard_info(&client.ws.others.shards_stats);
    clients.insert(id.clone(), client);
    proof {
        assert(clients@ =~= before.insert(id@, clients@[id@]));
    }
    CommandOutcome::Send(message)
}

/// Registers a shard of bot `id` with a fresh random hash of fifteen letters
/// and digits.
pub fn register_shard<T>(data: GatewayCommand, clients: &mut Clients<T>, id: &String) -> (r: CommandOutcome)
    requires
        !register_shard_fails(data, old(clients)@, id@),
    ensures
        register_shard_post_any(data, old(clients)@, final(clients)@, id@, r),
{
    let hash = random_alphanumeric(15);
    let ghost h = hash;
    let r = register_shard_with_hash(data, clients, id, hash);
    proof {
        assert(register_shard_post(data, old(clients)@, clients@, id@, h, r));
    }
    r
}

} // verus!
