use crate::encoding::{decimal, json_bool, json_string, push_bool, push_bytes, push_decimal, push_json_string};
use crate::routes::websocket::structures::client::Shard;
use vstd::prelude::*;
use vstd::utf8::encode_utf8;

verus! {

/// Sent when a connection asks for a shard beyond the shard count.
pub open spec fn too_many_shards_message() -> Seq<u8> {
    encode_utf8(
        "{\"data\":{},\"message\":\"Excuse me! I'm terminating the connection due to too many shards.\",\"possible_error\":true,\"rate_limit\":true,\"type\":0}"@,
    )
}

pub fn too_many_shards() -> (r: Vec<u8>)
    ensures
        r@ == too_many_shards_message(),
{
    let mut r: Vec<u8> = Vec::new();
    push_bytes(
        &mut r,
        "{\"data\":{},\"message\":\"Excuse me! I'm terminating the connection due to too many shards.\",\"possible_error\":true,\"rate_limit\":true,\"type\":0}".as_bytes(),
    );
    r
}

/// Greets an accepted connection; `starting` tells whether it is the first shard.
pub open spec fn hello_message(starting: bool) -> Seq<u8> {
    encode_utf8("{\"data\":{\"starting_shards\":"@) + json_bool(starting) + encode_utf8(
        "},\"event\":\"GATEWAY_HELLO\",\"message\":\"\",\"possible_error\":false,\"rate_limit\":true,\"service\":\"gateway\",\"type\":1}"@,
    )
}

pub fn hello(starting: bool) -> (r: Vec<u8>)
    ensures
        r@ == hello_message(starting),
{
    let mut r: Vec<u8> = Vec::new();
    push_bytes(&mut r, "{\"data\":{\"starting_shards\":".as_bytes());
    push_bool(&mut r, starting);
    push_bytes(
        &mut r,
        "},\"event\":\"GATEWAY_HELLO\",\"message\":\"\",\"possible_error\":false,\"rate_limit\":true,\"service\":\"gateway\",\"type\":1}".as_bytes(),
    );
    r
}

/// The answer to a ping.
pub open spec fn ping_message() -> Seq<u8> {
    encode_utf8("{\"data\":{},\"event\":\"GATEWAY_PING\",\"service\":\"gateway\",\"type\":3}"@)
}

pub fn ping() -> (r: Vec<u8>)
    ensures
        r@ == ping_message(),
{
    let mut r: Vec<u8> = Vec::new();
    push_bytes(&mut r, "{\"data\":{},\"event\":\"GATEWAY_PING\",\"service\":\"gateway\",\"type\":3}".as_bytes());
    r
}

/// The start of the registration answer, up to the shard statistics.
pub open spec fn ready_message_head(
    shard_in: nat,
    shard_total: nat,
    id: Seq<char>,
    flags: nat,
    session_id: Seq<char>,
) -> Seq<u8> {
    encode_utf8("{\"data\":{\"application_bot\":{\"flags\":"@) + decimal(flags) + encode_utf8(",\"id\":"@)
        + json_string(encode_utf8(id)) + encode_utf8(",\"public_key\":\"[REDACTED]\"},\"session_id\":"@)
        + json_string(encode_utf8(session_id)) + encode_utf8(",\"shards_config\":[[[["@) + decimal(shard_in)
        + encode_utf8(","@) + decimal(shard_total) + encode_utf8("]]]],\"shards_stats\":[[[[[["@)
}

/// Confirms the registration of a client: its application, its session, its
/// shard configuration and its shards' statistics.
pub open spec fn ready_message(
    shard_in: nat,
    shard_total: nat,
    id: Seq<char>,
    flags: nat,
    session_id: Seq<char>,
    stats: Seq<Shard>,
) -> Seq<u8> {
    ready_message_head(shard_in, shard_total, id, flags, session_id) + shard_list_json(stats) + encode_utf8(
        "]]]]]]},\"event\":\"GATEWAY_READY\",\"service\":\"gateway\",\"type\":1}"@,
    )
}

fn push_ready_head(out: &mut Vec<u8>, shard_in: usize, shard_total: usize, id: &str, flags: u64, session_id: &str)
    ensures
        final(out)@ == old(out)@ + ready_message_head(
            shard_in as nat,
            shard_total as nat,
            id@,
            flags as nat,
            session_id@,
        ),
{
    push_bytes(out, "{\"data\":{\"application_bot\":{\"flags\":".as_bytes());
    push_decimal(out, flags);
    push_bytes(out, ",\"id\":".as_bytes());
    push_json_string(out, id);
    push_bytes(out, ",\"public_key\":\"[REDACTED]\"},\"session_id\":".as_bytes());
    push_json_string(out, session_id);
    push_bytes(out, ",\"shards_config\":[[[[".as_bytes());
    push_decimal(out, shard_in as u64);
    push_bytes(out, ",".as_bytes());
    push_decimal(out, shard_total as u64);
    push_bytes(out, "]]]],\"shards_stats\":[[[[[[".as_bytes());
}

pub fn ready(
    shard_in: usize,
    shard_total: usize,
    id: &str,
    flags: u64,
    session_id: &str,
    stats: &Vec<Shard>,
) -> (r: Vec<u8>)
    ensures
        r@ == ready_message(shard_in as nat, shard_total as nat, id@, flags as nat, session_id@, stats@),
{
    let mut r: Vec<u8> = Vec::new();
    push_ready_head(&mut r, shard_in, shard_total, id, flags, session_id);
    push_shard_list(&mut r, stats);
    push_bytes(&mut r, "]]]]]]},\"event\":\"GATEWAY_READY\",\"service\":\"gateway\",\"type\":1}".as_bytes());
    r
}

/// Confirms that a session was resumed.
pub open spec fn resume_message(shard_in: nat, shard_total: nat, id: Seq<char>) -> Seq<u8> {
    encode_utf8("{\"data\":{\"application_bot\":{\"flags\":null,\"id\":"@) + json_string(encode_utf8(id))
        + encode_utf8(",\"public_key\":\"[REDACTED]\",\"shards_config\":[[[["@) + decimal(shard_in)
        + encode_utf8(","@) + decimal(shard_total) + encode_utf8(
        "]]]]},\"shards_stats\":[[[[[[[]]]]]]]},\"event\":\"GATEWAY_RESUME\",\"service\":\"gateway\",\"type\":1}"@,
    )
}

pub fn resume(shard_in: usize, shard_total: usize, id: &str) -> (r: Vec<u8>)
    ensures
        r@ == resume_message(shard_in as nat, shard_total as nat, id@),
{
    let mut r: Vec<u8> = Vec::new();
    push_bytes(&mut r, "{\"data\":{\"application_bot\":{\"flags\":null,\"id\":".as_bytes());
    push_json_string(&mut r, id);
    push_bytes(&mut r, ",\"public_key\":\"[REDACTED]\",\"shards_config\":[[[[".as_bytes());
    push_decimal(&mut r, shard_in as u64);
    push_bytes(&mut r, ",".as_bytes());
    push_decimal(&mut r, shard_total as u64);
    push_bytes(
        &mut r,
        "]]]]},\"shards_stats\":[[[[[[[]]]]]]]},\"event\":\"GATEWAY_RESUME\",\"service\":\"gateway\",\"type\":1}".as_bytes(),
    );
    r
}

/// The counters of a shard, as the first members of its JSON object.
pub open spec fn shard_json_head(shard: Shard) -> Seq<u8> {
    encode_utf8("{\"development\":"@) + json_bool(shard.development) + encode_utf8(",\"disconnected\":"@)
        + json_bool(shard.disconnected) + encode_utf8(",\"receibe_ping\":"@) + decimal(
        shard.receibe_ping as nat,
    ) + encode_utf8(",\"received\":"@) + decimal(shard.received as nat)
}

/// The remaining members of a shard's JSON object.
pub open spec fn shard_json_tail(shard: Shard) -> Seq<u8> {
    encode_utf8(",\"send_ping\":"@) + decimal(shard.send_ping as nat) + encode_utf8(",\"sending\":"@)
        + decimal(shard.sending as nat) + encode_utf8(",\"shard_hash\":"@) + json_string(
        encode_utf8(shard.shard_hash@),
    ) + encode_utf8(",\"shard_id\":"@) + decimal(shard.shard_id as nat) + encode_utf8("}"@)
}

/// One shard's statistics as a JSON object.
pub open spec fn shard_json(shard: Shard) -> Seq<u8> {
    shard_json_head(shard) + shard_json_tail(shard)
}

/// The shards' objects, separated by commas.
pub open spec fn shard_list_items(shards: Seq<Shard>) -> Seq<u8>
    decreases shards.len(),
{
    if shards.len() == 0 {
        Seq::empty()
    } else if shards.len() == 1 {
        shard_json(shards[0])
    } else {
        shard_list_items(shards.drop_last()) + encode_utf8(","@) + shard_json(shards.last())
    }
}

/// The shards' statistics as a JSON array.
pub open spec fn shard_list_json(shards: Seq<Shard>) -> Seq<u8> {
    encode_utf8("["@) + shard_list_items(shards) + encode_utf8("]"@)
}

fn push_shard_head(out: &mut Vec<u8>, shard: &Shard)
    ensures
        final(out)@ == old(out)@ + shard_json_head(*shard),
{
    push_bytes(out, "{\"development\":".as_bytes());
    push_bool(out, shard.development);
    push_bytes(out, ",\"disconnected\":".as_bytes());
    push_bool(out, shard.disconnected);
    push_bytes(out, ",\"receibe_ping\":".as_bytes());
    push_decimal(out, shard.receibe_ping);
    push_bytes(out, ",\"received\":".as_bytes());
    push_decimal(out, shard.received);
}

fn push_shard_tail(out: &mut Vec<u8>, shard: &Shard)
    ensures
        final(out)@ == old(out)@ + shard_json_tail(*shard),
{
    push_bytes(out, ",\"send_ping\":".as_bytes());
    push_decimal(out, shard.send_ping);
    push_bytes(out, ",\"sending\":".as_bytes());
    push_decimal(out, shard.sending);
    push_bytes(out, ",\"shard_hash\":".as_bytes());
    push_json_string(out, shard.shard_hash.as_str());
    push_bytes(out, ",\"shard_id\":".as_bytes());
    push_decimal(out, shard.shard_id as u64);
    push_bytes(out, "}".as_bytes());
}

fn push_shard(out: &mut Vec<u8>, shard: &Shard)
    ensures
        final(out)@ == old(out)@ + shard_json(*shard),
{
    push_shard_head(out, shard);
    push_shard_tail(out, shard);
}

fn push_shard_list(out: &mut Vec<u8>, shards: &Vec<Shard>)
    ensures
        final(out)@ == old(out)@ + shard_list_json(shards@),
{
    let ghost start = out@;
    push_bytes(out, "[".as_bytes());
    let mut i: usize = 0;
    while i < shards.len()
        invariant
            i <= shards@.len(),
            out@ == start + encode_utf8("["@) + shard_list_items(shards@.subrange(0, i as int)),
        decreases shards@.len() - i,
    {
        if i > 0 {
            push_bytes(out, ",".as_bytes());
        }
        push_shard(out, &shards[i]);
        i = i + 1;
        assert(shards@.subrange(0, i as int).drop_last() == shards@.subrange(0, i - 1));
        assert(shards@.subrange(0, i as int).last() == shards@[i - 1]);
    }
    push_bytes(out, "]".as_bytes());
    assert(shards@.subrange(0, shards@.len() as int) == shards@);
}

/// Lists a client's shards after one was registered.
pub open spec fn shard_info_message(shards: Seq<Shard>) -> Seq<u8> {
    encode_utf8("{\"data\":[[["@) + shard_list_json(shards) + encode_utf8(
        "]]],\"event\":\"GATEWAY_SHARD_INFO\",\"service\":\"gateway\",\"type\":1}"@,
    )
}

pub fn shard_info(shards: &Vec<Shard>) -> (r: Vec<u8>)
    ensures
        r@ == shard_info_message(shards@),
{
    let mut r: Vec<u8> = Vec::new();
    push_bytes(&mut r, "{\"data\":[[[".as_bytes());
    push_shard_list(&mut r, shards);
    push_bytes(&mut r, "]]],\"event\":\"GATEWAY_SHARD_INFO\",\"service\":\"gateway\",\"type\":1}".as_bytes());
    r
}

/// Hands an HTTP interaction to a shard; `metadata` is the interaction's JSON text.
pub open spec fn interaction_message(flag: nat, metadata: Seq<u8>, shard_id: nat, shard_total: nat) -> Seq<u8> {
    encode_utf8("{\"data\":{\"flag\":"@) + decimal(flag) + encode_utf8(",\"metadata_http\":["@) + metadata
        + encode_utf8("],\"shard_id\":"@) + decimal(shard_id) + encode_utf8(",\"shard_total\":"@)
        + decimal(shard_total) + encode_utf8(
        "},\"event\":\"INTERACTION_DISCORD\",\"service\":\"http_gateway\",\"type\":8}"@,
    )
}

/// The message that hands an HTTP interaction to a shard.
pub fn interaction_dispatch(type_interaction: usize, metadata: &[u8], shard_id: usize, shard_total: usize) -> (r: Vec<u8>)
    ensures
        r@ == interaction_message(type_interaction as nat, metadata@, shard_id as nat, shard_total as nat),
{
    let mut r: Vec<u8> = Vec::new();
    push_bytes(&mut r, "{\"data\":{\"flag\":".as_bytes());
    push_decimal(&mut r, type_interaction as u64);
    push_bytes(&mut r, ",\"metadata_http\":[".as_bytes());
    push_bytes(&mut r, metadata);
    push_bytes(&mut r, "],\"shard_id\":".as_bytes());
    push_decimal(&mut r, shard_id as u64);
    push_bytes(&mut r, ",\"shard_total\":".as_bytes());
    push_decimal(&mut r, shard_total as u64);
    push_bytes(&mut r, "},\"event\":\"INTERACTION_DISCORD\",\"service\":\"http_gateway\",\"type\":8}".as_bytes());
    r
}

} // verus!
