use crate::encoding::{count_equal, split_count, split_spaces};
use crate::routes::websocket::messages::gateway::{hello, hello_message, too_many_shards, too_many_shards_message};
use crate::routes::websocket::structures::client::Clients;
use flate2::read::GzDecoder;
use flate2::write::ZlibEncoder;
use flate2::Compression;
use std::io::Read;
use std::io::Write;
use vstd::prelude::*;
use vstd::utf8::{encode_utf8, valid_utf8};

verus! {

/// The zlib stream (header, deflate data, checksum) that flate2 produces for
/// `data` at compression `level`.
pub uninterp spec fn zlib_compress(data: Seq<u8>, level: u32) -> Seq<u8>;

/// The bytes that flate2 reads out of the gzip stream `data`, or `None` where the
/// stream does not decode.
pub uninterp spec fn gunzip(data: Seq<u8>) -> Option<Seq<u8>>;

/// `ZlibEncoder` of flate2 over a `Vec`: writes all of `data` at `level` and
/// finishes the stream. Writing to a `Vec` does not fail.
#[verifier::external_body]
fn zlib_encode(data: &[u8], level: u32) -> (r: Vec<u8>)
    ensures
        r@ == zlib_compress(data@, level),
{
    let mut encoder = ZlibEncoder::new(Vec::new(), Compression::new(level));
    let _ = encoder.write_all(data);
    encoder.finish().unwrap()
}

/// `GzDecoder` of flate2 read to the end into a `String` (`Read::read_to_string`):
/// fails where the stream does not decode or the decoded bytes are not UTF-8.
#[verifier::external_body]
fn gzip_read_to_string(data: &[u8]) -> (r: Option<String>)
    ensures
        r is Some <==> (gunzip(data@) is Some && valid_utf8(gunzip(data@)->0)),
        r matches Some(s) ==> encode_utf8(s@) == gunzip(data@)->0,
{
    let mut decoder = GzDecoder::new(data);
    let mut text = String::new();
    match decoder.read_to_string(&mut text) {
        Ok(_) => Some(text),
        Err(_) => None,
    }
}

/// Compresses a JSON text for a binary websocket frame (zlib, level 10).
pub fn convert_to_binary(inf: &[u8]) -> (r: Vec<u8>)
    ensures
        r@ == zlib_compress(inf@, 10),
{
    zlib_encode(inf, 10)
}

/// Whether `b` is a gzip stream of UTF-8 text.
pub open spec fn gzip_text(b: Seq<u8>) -> bool {
    gunzip(b) is Some && valid_utf8(gunzip(b)->0)
}

/// The text of a gzip-compressed frame. A frame that is not gzip-compressed UTF-8
/// text is refused by `requires`.
pub fn read_compress(b: &[u8]) -> (r: String)
    requires
        gzip_text(b@),
    ensures
        encode_utf8(r@) == gunzip(b@)->0,
{
    match gzip_read_to_string(b) {
        Some(s) => s,
        None => {
            proof {
                assert(false);
            }
            String::new()
        },
    }
}

/// `read_compress` on any frame: `None` where the frame is not gzip-compressed
/// UTF-8 text.
pub fn try_read_compress(b: &[u8]) -> (r: Option<String>)
    ensures
        r is Some <==> gzip_text(b@),
        r matches Some(s) ==> encode_utf8(s@) == gunzip(b@)->0,
{
    match gzip_read_to_string(b) {
        Some(_) => Some(read_compress(b)),
        None => None,
    }
}

/// Whether `item` is one of the space-separated entries of `list`.
pub open spec fn listed(list: Seq<char>, item: Seq<char>) -> bool {
    exists|i: int|
        0 <= i < split_spaces(encode_utf8(list)).len() && #[trigger] split_spaces(encode_utf8(list))[i]
            == encode_utf8(item)
}

proof fn lemma_count_equal_positive(pieces: Seq<Seq<u8>>, key: Seq<u8>)
    ensures
        (count_equal(pieces, key) > 0) == (exists|i: int| 0 <= i < pieces.len() && #[trigger] pieces[i] == key),
    decreases pieces.len(),
{
    if pieces.len() > 0 {
        let rest = pieces.drop_last();
        lemma_count_equal_positive(rest, key);
        if exists|i: int| 0 <= i < rest.len() && #[trigger] rest[i] == key {
            let i = choose|i: int| 0 <= i < rest.len() && #[trigger] rest[i] == key;
            assert(pieces[i] == rest[i]);
        }
        if exists|i: int| 0 <= i < pieces.len() && #[trigger] pieces[i] == key {
            let i = choose|i: int| 0 <= i < pieces.len() && #[trigger] pieces[i] == key;
            if i < rest.len() {
                assert(rest[i] == pieces[i]);
            }
        }
    }
}

/// Whether `item` is one of the space-separated entries of `list`.
pub fn is_listed(list: &String, item: &String) -> (r: bool)
    ensures
        r == listed(list@, item@),
{
    let (_, matching) = split_count(list.as_str().as_bytes(), item.as_str().as_bytes());
    proof {
        lemma_count_equal_positive(split_spaces(encode_utf8(list@)), encode_utf8(item@));
    }
    matching > 0
}

/// Whether a connection is let in: the secret it sends is the configured one,
/// the key it sends is one of the configured Discord keys, and its id is one of
/// the configured bot ids (the configured lists are separated by spaces).
pub open spec fn connection_accepted(
    pub_key: Seq<char>,
    secret_key: Seq<char>,
    pub_key_discord: Seq<char>,
    bot_discord: Seq<char>,
    id: Seq<char>,
    secret: Seq<char>,
) -> bool {
    &&& secret == secret_key
    &&& listed(pub_key_discord, pub_key)
    &&& listed(bot_discord, id)
}

/// Whether a connection is let in (see `connection_accepted`): `pub_key` is the
/// key the bot sent, `secret_key`, `pub_key_discord` and `bot_discord` are the
/// configured secret, keys and bot ids, `id` and `secret` what the bot sent.
pub fn connection_check(
    pub_key: &String,
    secret_key: &String,
    pub_key_discord: &String,
    bot_discord: &String,
    id: &String,
    secret: &String,
) -> (r: bool)
    ensures
        r == connection_accepted(pub_key@, secret_key@, pub_key_discord@, bot_discord@, id@, secret@),
{
    *secret == *secret_key && is_listed(pub_key_discord, pub_key) && is_listed(bot_discord, id)
}

/// How the gateway answers a new websocket connection.
pub enum GatewayOpening {
    /// The credentials were refused: close the socket.
    Refused,
    /// The shard is beyond the shard count: queue this message, then close.
    TooManyShards(Vec<u8>),
    /// A shard of a bot that is not registered: drop the socket.
    Unidentified,
    /// Accepted: send this greeting and serve the connection.
    Hello(Vec<u8>),
}

/// Decides how to answer a new websocket connection of bot `id` for shard
/// `shard_in` of `shard_total`; `x` holds the key sent by the bot, the configured
/// secret, the configured Discord keys and the configured bot ids.
pub fn websocket_message<T>(
    clients: &Clients<T>,
    id: &String,
    secret: &String,
    shard_in: usize,
    shard_total: usize,
    x: (String, String, String, String),
) -> (r: GatewayOpening)
    ensures
        ({
            let accepted = connection_accepted(x.0@, x.1@, x.2@, x.3@, id@, secret@);
            &&& !accepted ==> r is Refused
            &&& accepted && shard_in > shard_total ==> (r matches GatewayOpening::TooManyShards(m) && m@
                == too_many_shards_message())
            &&& accepted && shard_in <= shard_total && shard_in > 0 && !clients@.contains_key(id@)
                ==> r is Unidentified
            &&& accepted && shard_in <= shard_total && (shard_in == 0 || clients@.contains_key(id@))
                ==> (r matches GatewayOpening::Hello(m) && m@ == hello_message(shard_in == 0))
        }),
{
    let (pub_key, secret_key, pub_key_discord, bot_discord) = x;
    if !connection_check(&pub_key, &secret_key, &pub_key_discord, &bot_discord, id, secret) {
        return GatewayOpening::Refused;
    }
    if shard_in > shard_total {
        return GatewayOpening::TooManyShards(too_many_shards());
    }
    let gateway_not_found = if shard_in > 0 {
        !clients.contains_key(id)
    } else {
        false
    };
    if gateway_not_found {
        return GatewayOpening::Unidentified;
    }
    GatewayOpening::Hello(hello(shard_in == 0))
}

/// Forgets the client `id`.
pub fn update_state<T>(clients: &mut Clients<T>, id: &String)
    ensures
        final(clients)@ == old(clients)@.remove(id@),
{
    let _ = clients.remove(id);
}

/// Called when a bot's connection ends; the registry is left as it is.
pub fn bot_disconnected<T>(clients: &Clients<T>, id: &String) {
    let _ = clients.get(id);
}

/// Shard index of a guild: the top bits of its snowflake, reduced modulo the
/// shard count.
pub fn search_shard(guild_id: u64, shard_size: usize) -> (r: usize)
    requires
        shard_size > 0,
    ensures
        r == (guild_id >> 22u64) % (shard_size as u64),
        r < shard_size,
{
    let shard_id = (guild_id >> 22u64) % (shard_size as u64);
    shard_id as usize
}

} // verus!
