use crate::encoding::{hex_decode_lenient, hex_pairs, hex_value, is_hex_digit, split_spaces, without_hex_spaces};
use crate::routes::interaction::interaction_create::{lookup_fails, InteractionRequest};
use crate::routes::websocket::commands::client::ping_client::ping_client_post;
use crate::routes::websocket::commands::client::register_client::{flag_count, register_client_post_any};
use crate::routes::websocket::commands::client::register_shard::{
    new_shard, register_shard_post, register_shard_post_any, shard_known,
};
use crate::routes::websocket::commands::client::ping_client::ping_client_post as ping_post;
use crate::routes::websocket::commands::handler::{load_commands_post, CommandOutcome};
use crate::routes::websocket::messages::utils::{
    CLIENT_RETURN_METADATA_FOR_API, PING_CLIENT, REGISTER_CLIENT, REGISTER_SHARDING,
};
use crate::routes::websocket::commands::interaction::interaction_return::interaction_return_post;
use crate::routes::websocket::messages::gateway::ping_message;
use crate::routes::websocket::structures::client::{ClientBot, GatewayCommand, Interaction, JsonField, Shard};
use crate::routes::websocket::websocket_server::{connection_accepted, listed};
use crate::sign::sign_mod::SIGNATURE_DISCORD;
use crate::routes::websocket::commands::client::register_shard::is_alphanumeric;
use crate::sign_mod::{any_key_authorizes, key_authorizes};
use crate::encoding::{decimal, json_bool};
use crate::keys::ed25519_verify;
use crate::routes::interaction::interaction_create::{route_post, InteractionStep};
use crate::routes::websocket::messages::gateway::{hello_message, shard_info_message};
use crate::routes::websocket::websocket_server::zlib_compress;
use crate::utils::constants::{
    INTERACTION_AUTOCOMPLETE, INTERACTION_BUTTON, INTERACTION_COMMAND, INTERACTION_MODAL_SUBMIT,
};
use vstd::prelude::*;
use vstd::utf8::{encode_utf8, encode_utf8_decode_utf8};

verus! {

/// A bot whose registration went through is answered when it pings.
pub proof fn registered_bot_is_pinged<T>(
    data: GatewayCommand,
    tx: T,
    before: Map<Seq<char>, ClientBot<T>>,
    after: Map<Seq<char>, ClientBot<T>>,
    id: Seq<char>,
    d: (String, usize, usize, String),
    registration: CommandOutcome,
    ping: CommandOutcome,
)
    requires
        register_client_post_any(data, tx, before, after, id, d, registration),
        registration is Send,
        ping_client_post(after, id, ping),
    ensures
        ping matches CommandOutcome::Send(m) && m@ == ping_message(),
{
}

/// Registering a bot leaves every other bot as it was.
pub proof fn registration_leaves_other_bots<T>(
    data: GatewayCommand,
    tx: T,
    before: Map<Seq<char>, ClientBot<T>>,
    after: Map<Seq<char>, ClientBot<T>>,
    id: Seq<char>,
    d: (String, usize, usize, String),
    r: CommandOutcome,
    other: Seq<char>,
)
    requires
        register_client_post_any(data, tx, before, after, id, d, r),
        other != id,
    ensures
        after.contains_key(other) == before.contains_key(other),
        before.contains_key(other) ==> after[other] == before[other],
{
}

/// What a bot returns for an interaction is what the HTTP side then finds under
/// the interaction's id.
pub proof fn returned_interaction_is_found<T>(
    data: GatewayCommand,
    clients: Map<Seq<char>, ClientBot<T>>,
    id: Seq<char>,
    before: Map<Seq<char>, Interaction>,
    after: Map<Seq<char>, Interaction>,
    r: CommandOutcome,
    request: InteractionRequest,
)
    requires
        interaction_return_post(data, clients, id, before, after, r),
        clients.contains_key(id),
        data.id is Text,
        request.id is Text,
        request.id->Text_0@ == data.id->Text_0@,
    ensures
        after.contains_key(request.id->Text_0@),
        after[request.id->Text_0@].data == data.data,
        !lookup_fails(request, after),
{
}

/// Once an interaction expires, nothing is found under its id.
pub proof fn expired_interaction_is_gone(before: Map<Seq<char>, Interaction>, key: Seq<char>)
    ensures
        !before.remove(key).contains_key(key),
{
}

/// A shard that was just registered is known, so registering it again changes
/// nothing and sends nothing.
pub proof fn shard_registration_is_idempotent<T>(
    data: GatewayCommand,
    first: Map<Seq<char>, ClientBot<T>>,
    second: Map<Seq<char>, ClientBot<T>>,
    third: Map<Seq<char>, ClientBot<T>>,
    id: Seq<char>,
    hash1: String,
    hash2: String,
    r1: CommandOutcome,
    r2: CommandOutcome,
)
    requires
        register_shard_post(data, first, second, id, hash1, r1),
        r1 is Send,
        register_shard_post(data, second, third, id, hash2, r2),
    ensures
        third == second,
        r2 is Nothing,
{
    let p = data.d->Some_0;
    let sid = p.shard_id->UInt_0 as usize;
    let stats = second[id].ws.others.shards_stats@;
    assert(stats[0] == new_shard(sid, hash1));
    assert(shard_known(stats, sid));
}

/// The flags kept for a client depend only on the two low bits of the
/// requested flags, and always include bit 0.
pub proof fn kept_flags_use_two_low_bits(flags: u64)
    ensures
        flag_count(flags) == flag_count(flags % 4),
        flag_count(flags) % 2 == 1,
        flag_count(flags) <= 7,
{
    assert(flags % 2 == (flags % 4) % 2 && (flags / 2) % 2 == ((flags % 4) / 2) % 2) by (bit_vector);
    assert(flags % 2 < 2 && (flags / 2) % 2 < 2);
    assert((flags % 4) % 2 < 2 && ((flags % 4) / 2) % 2 < 2);
}

proof fn lemma_split_without_spaces(b: Seq<u8>)
    requires
        forall|i: int| 0 <= i < b.len() ==> b[i] != 32,
    ensures
        split_spaces(b) == seq![b],
    decreases b.len(),
{
    if b.len() > 0 {
        let rest = b.drop_last();
        assert forall|i: int| 0 <= i < rest.len() implies rest[i] != 32 by {
            assert(rest[i] == b[i]);
        }
        lemma_split_without_spaces(rest);
        assert(b.last() == b[b.len() - 1]);
        assert(rest.push(b.last()) =~= b);
        assert(split_spaces(b) =~= seq![b]);
    } else {
        assert(b =~= Seq::<u8>::empty());
    }
}

/// With a single configured key and a single configured bot id (no space in
/// either list), a connection is let in exactly when its secret, key and id are
/// the configured ones.
pub proof fn single_key_connection_rule(
    pub_key: Seq<char>,
    secret_key: Seq<char>,
    pub_key_discord: Seq<char>,
    bot_discord: Seq<char>,
    id: Seq<char>,
    secret: Seq<char>,
)
    requires
        forall|i: int| 0 <= i < encode_utf8(pub_key_discord).len() ==> encode_utf8(pub_key_discord)[i] != 32,
        forall|i: int| 0 <= i < encode_utf8(bot_discord).len() ==> encode_utf8(bot_discord)[i] != 32,
    ensures
        connection_accepted(pub_key, secret_key, pub_key_discord, bot_discord, id, secret) <==> (
        secret == secret_key && pub_key == pub_key_discord && id == bot_discord),
{
    lemma_split_without_spaces(encode_utf8(pub_key_discord));
    lemma_split_without_spaces(encode_utf8(bot_discord));
    encode_utf8_decode_utf8(pub_key);
    encode_utf8_decode_utf8(pub_key_discord);
    encode_utf8_decode_utf8(id);
    encode_utf8_decode_utf8(bot_discord);
    if listed(pub_key_discord, pub_key) {
        let i = choose|i: int|
            0 <= i < split_spaces(encode_utf8(pub_key_discord)).len() && #[trigger] split_spaces(
                encode_utf8(pub_key_discord),
            )[i] == encode_utf8(pub_key);
        assert(i == 0);
    }
    if listed(bot_discord, id) {
        let i = choose|i: int|
            0 <= i < split_spaces(encode_utf8(bot_discord)).len() && #[trigger] split_spaces(
                encode_utf8(bot_discord),
            )[i] == encode_utf8(id);
        assert(i == 0);
    }
    if pub_key == pub_key_discord {
        assert(split_spaces(encode_utf8(pub_key_discord))[0] == encode_utf8(pub_key));
    }
    if id == bot_discord {
        assert(split_spaces(encode_utf8(bot_discord))[0] == encode_utf8(id));
    }
}

/// A key listed among the configured keys, with the right secret and a listed
/// bot id, is let in whatever else the lists hold.
pub proof fn listed_credentials_are_accepted(
    pub_key: Seq<char>,
    secret_key: Seq<char>,
    pub_key_discord: Seq<char>,
    bot_discord: Seq<char>,
    id: Seq<char>,
    key_index: int,
    bot_index: int,
)
    requires
        0 <= key_index < split_spaces(encode_utf8(pub_key_discord)).len(),
        split_spaces(encode_utf8(pub_key_discord))[key_index] == encode_utf8(pub_key),
        0 <= bot_index < split_spaces(encode_utf8(bot_discord)).len(),
        split_spaces(encode_utf8(bot_discord))[bot_index] == encode_utf8(id),
    ensures
        connection_accepted(pub_key, secret_key, pub_key_discord, bot_discord, id, secret_key),
        forall|secret: Seq<char>|
            secret != secret_key ==> !#[trigger] connection_accepted(
                pub_key,
                secret_key,
                pub_key_discord,
                bot_discord,
                id,
                secret,
            ),
{
}

proof fn lemma_hex_pairs_len(b: Seq<u8>)
    requires
        b.len() % 2 == 0,
    ensures
        hex_pairs(b).len() == b.len() / 2,
    decreases b.len(),
{
    if b.len() >= 2 {
        lemma_hex_pairs_len(b.subrange(0, b.len() - 2));
    }
}

/// A key can only verify a request when it is 64 hexadecimal digits and the
/// signature is 128 (`SIGNATURE_DISCORD`) hexadecimal digits.
pub proof fn signature_headers_have_fixed_length(key: Seq<u8>, sign: Seq<u8>, message: Seq<u8>)
    requires
        key_authorizes(key, sign, message),
    ensures
        key.len() == 64,
        sign.len() == SIGNATURE_DISCORD,
{
    lemma_hex_pairs_len(key);
    lemma_hex_pairs_len(sign);
}

/// A request that passes the check under a list of keys carries a signature of
/// 128 hexadecimal digits.
pub proof fn accepted_signature_has_fixed_length(pub_keys: Seq<char>, sign: Seq<char>, message: Seq<char>)
    requires
        any_key_authorizes(pub_keys, sign, message),
    ensures
        encode_utf8(sign).len() == SIGNATURE_DISCORD,
{
    let keys = split_spaces(encode_utf8(pub_keys));
    let i = choose|i: int|
        0 <= i < keys.len() && key_authorizes(#[trigger] keys[i], encode_utf8(sign), encode_utf8(message));
    signature_headers_have_fixed_length(keys[i], encode_utf8(sign), encode_utf8(message));
}

/// No two shards in a list share an id.
pub open spec fn shard_ids_distinct(stats: Seq<Shard>) -> bool {
    forall|i: int, j: int|
        0 <= i < stats.len() && 0 <= j < stats.len() && i != j ==> #[trigger] stats[i].shard_id
            != #[trigger] stats[j].shard_id
}

/// A shard registration keeps the shard ids of a bot's statistics distinct.
pub proof fn shard_ids_stay_distinct<T>(
    data: GatewayCommand,
    before: Map<Seq<char>, ClientBot<T>>,
    after: Map<Seq<char>, ClientBot<T>>,
    id: Seq<char>,
    r: CommandOutcome,
)
    requires
        register_shard_post_any(data, before, after, id, r),
        before.contains_key(id),
        shard_ids_distinct(before[id].ws.others.shards_stats@),
    ensures
        after.contains_key(id),
        shard_ids_distinct(after[id].ws.others.shards_stats@),
{
    let hash = choose|hash: String|
        hash@.len() == 15 && (forall|i: int| 0 <= i < 15 ==> is_alphanumeric(#[trigger] hash@[i]))
            && #[trigger] register_shard_post(data, before, after, id, hash, r);
    if after != before {
        let p = data.d->Some_0;
        let sid = p.shard_id->UInt_0 as usize;
        let old_stats = before[id].ws.others.shards_stats@;
        let stats = after[id].ws.others.shards_stats@;
        assert(stats == seq![new_shard(sid, hash)] + old_stats);
        assert forall|i: int, j: int|
            0 <= i < stats.len() && 0 <= j < stats.len() && i != j implies #[trigger] stats[i].shard_id
            != #[trigger] stats[j].shard_id by {
            if i == 0 {
                assert(stats[j] == old_stats[j - 1]);
            } else if j == 0 {
                assert(stats[i] == old_stats[i - 1]);
            } else {
                assert(stats[i] == old_stats[i - 1]);
                assert(stats[j] == old_stats[j - 1]);
            }
        }
    }
}

/// `load_commands` has, for each command type, the effect of that command's
/// handler.
pub proof fn load_commands_runs_the_handler<T>(
    data: GatewayCommand,
    tx: T,
    clients_before: Map<Seq<char>, ClientBot<T>>,
    clients_after: Map<Seq<char>, ClientBot<T>>,
    id: Seq<char>,
    interactions_before: Map<Seq<char>, Interaction>,
    interactions_after: Map<Seq<char>, Interaction>,
    d: (String, usize, usize, String),
    r: CommandOutcome,
)
    requires
        load_commands_post(
            data,
            tx,
            clients_before,
            clients_after,
            id,
            interactions_before,
            interactions_after,
            d,
            r,
        ),
    ensures
        data.kind == JsonField::UInt(REGISTER_CLIENT) ==> register_client_post_any(
            data,
            tx,
            clients_before,
            clients_after,
            id,
            d,
            r,
        ),
        data.kind == JsonField::UInt(PING_CLIENT) ==> ping_post(clients_before, id, r)
            && clients_after == clients_before,
        data.kind == JsonField::UInt(REGISTER_SHARDING) ==> register_shard_post_any(
            data,
            clients_before,
            clients_after,
            id,
            r,
        ),
        data.kind == JsonField::UInt(CLIENT_RETURN_METADATA_FOR_API) ==> interaction_return_post(
            data,
            clients_before,
            id,
            interactions_before,
            interactions_after,
            r,
        ),
        !(data.kind is UInt) ==> r is Nothing && clients_after == clients_before && interactions_after
            == interactions_before,
{
}

proof fn lemma_filter_keeps_digits(b: Seq<u8>)
    requires
        forall|i: int| 0 <= i < b.len() ==> is_hex_digit(#[trigger] b[i]),
    ensures
        without_hex_spaces(b) == b,
    decreases b.len(),
{
    reveal_with_fuel(Seq::<_>::filter, 1);
    if b.len() > 0 {
        let rest = b.drop_last();
        assert forall|i: int| 0 <= i < rest.len() implies is_hex_digit(#[trigger] rest[i]) by {
            assert(rest[i] == b[i]);
        }
        lemma_filter_keeps_digits(rest);
        assert(is_hex_digit(b[b.len() - 1]));
        assert(b.last() == b[b.len() - 1]);
        assert(rest.push(b.last()) =~= b);
        assert(without_hex_spaces(b) == without_hex_spaces(rest).push(b.last()));
    } else {
        assert(without_hex_spaces(b) =~= b);
    }
}

proof fn lemma_hex_pairs_at(b: Seq<u8>, i: int)
    requires
        b.len() % 2 == 0,
        0 <= i < b.len() / 2,
    ensures
        hex_pairs(b).len() == b.len() / 2,
        hex_pairs(b)[i] == (hex_value(b[2 * i]) * 16 + hex_value(b[2 * i + 1])) as u8,
    decreases b.len(),
{
    lemma_hex_pairs_len(b);
    let rest = b.subrange(0, b.len() - 2);
    lemma_hex_pairs_len(rest);
    if i < b.len() / 2 - 1 {
        lemma_hex_pairs_at(rest, i);
        assert(rest[2 * i] == b[2 * i]);
        assert(rest[2 * i + 1] == b[2 * i + 1]);
    }
}

/// On text made only of hexadecimal digits, in even number, the lenient
/// hexadecimal reading (that of `convert_data_for_byte`) gives one byte per pair
/// of digits, high digit first.
pub proof fn lenient_hex_reads_digit_pairs(b: Seq<u8>)
    requires
        b.len() % 2 == 0,
        forall|i: int| 0 <= i < b.len() ==> is_hex_digit(#[trigger] b[i]),
    ensures
        hex_decode_lenient(b) is Some,
        hex_decode_lenient(b)->0.len() == b.len() / 2,
        forall|i: int|
            0 <= i < b.len() / 2 ==> #[trigger] hex_decode_lenient(b)->0[i] == (hex_value(b[2 * i]) * 16
                + hex_value(b[2 * i + 1])) as u8,
{
    lemma_filter_keeps_digits(b);
    lemma_hex_pairs_len(b);
    assert forall|i: int| 0 <= i < b.len() / 2 implies #[trigger] hex_decode_lenient(b)->0[i] == (
    hex_value(b[2 * i]) * 16 + hex_value(b[2 * i + 1])) as u8 by {
        lemma_hex_pairs_at(b, i);
    }
}

/// For a registered bot and its own public key, a shard id that no entry of the
/// bot's statistics carries is registered: it is put first with the given hash
/// and the new list is sent back.
pub proof fn unknown_shard_is_registered<T>(
    data: GatewayCommand,
    before: Map<Seq<char>, ClientBot<T>>,
    after: Map<Seq<char>, ClientBot<T>>,
    id: Seq<char>,
    hash: String,
    r: CommandOutcome,
)
    requires
        register_shard_post(data, before, after, id, hash, r),
        data.d is Some,
        data.d->Some_0.public_key is Text,
        data.d->Some_0.shard_id is UInt,
        before.contains_key(id),
        data.d->Some_0.public_key->Text_0@ == before[id].application_bot.public_key@,
        forall|i: int|
            0 <= i < before[id].ws.others.shards_stats@.len() ==> (
            #[trigger] before[id].ws.others.shards_stats@[i]).shard_id != data.d->Some_0.shard_id->UInt_0 as usize,
    ensures
        after.contains_key(id),
        after[id].ws.others.shards_stats@ == seq![new_shard(data.d->Some_0.shard_id->UInt_0 as usize, hash)]
            + before[id].ws.others.shards_stats@,
        r matches CommandOutcome::Send(m) && m@ == shard_info_message(after[id].ws.others.shards_stats@),
{
}

/// A shard registration that names another public key than the bot's own
/// changes nothing and sends nothing.
pub proof fn foreign_key_registers_no_shard<T>(
    data: GatewayCommand,
    before: Map<Seq<char>, ClientBot<T>>,
    after: Map<Seq<char>, ClientBot<T>>,
    id: Seq<char>,
    hash: String,
    r: CommandOutcome,
)
    requires
        register_shard_post(data, before, after, id, hash, r),
        data.d is Some,
        data.d->Some_0.public_key is Text,
        before.contains_key(id),
        data.d->Some_0.public_key->Text_0@ != before[id].application_bot.public_key@,
    ensures
        after == before,
        r is Nothing,
{
}

/// A shard id that some entry of the bot's statistics already carries is not
/// registered again: nothing changes and nothing is sent.
pub proof fn known_shard_is_left_alone<T>(
    data: GatewayCommand,
    before: Map<Seq<char>, ClientBot<T>>,
    after: Map<Seq<char>, ClientBot<T>>,
    id: Seq<char>,
    hash: String,
    r: CommandOutcome,
    i: int,
)
    requires
        register_shard_post(data, before, after, id, hash, r),
        data.d is Some,
        data.d->Some_0.shard_id is UInt,
        before.contains_key(id),
        0 <= i < before[id].ws.others.shards_stats@.len(),
        before[id].ws.others.shards_stats@[i].shard_id == data.d->Some_0.shard_id->UInt_0 as usize,
    ensures
        after == before,
        r is Nothing,
{
    assert(shard_known(before[id].ws.others.shards_stats@, data.d->Some_0.shard_id->UInt_0 as usize));
}

/// The number that decimal digits stand for, most significant digit first.
pub open spec fn digits_value(digits: Seq<u8>) -> int
    decreases digits.len(),
{
    if digits.len() == 0 {
        0
    } else {
        digits_value(digits.drop_last()) * 10 + (digits.last() - 48)
    }
}

/// The decimal text of a number is made of ASCII digits, has no leading zero,
/// and reads back as that number.
pub proof fn decimal_reads_back(n: nat)
    ensures
        decimal(n).len() >= 1,
        forall|i: int| 0 <= i < decimal(n).len() ==> 48 <= #[trigger] decimal(n)[i] <= 57,
        decimal(n)[0] == 48 ==> n == 0,
        digits_value(decimal(n)) == n,
    decreases n,
{
    if n < 10 {
        assert(decimal(n).drop_last() =~= Seq::<u8>::empty());
        assert(digits_value(Seq::<u8>::empty()) == 0);
        assert(decimal(n).last() == 48 + n);
    } else {
        decimal_reads_back(n / 10);
        let d = decimal(n / 10);
        let c = (48 + n % 10) as u8;
        assert(decimal(n) == d + seq![c]);
        assert((d + seq![c]).drop_last() =~= d);
        assert(c == 48 + n % 10);
        assert(digits_value(decimal(n)) == digits_value(d) * 10 + (c - 48));
        assert(n == (n / 10) * 10 + n % 10);
        assert(decimal(n)[0] == d[0]);
        assert forall|i: int| 0 <= i < decimal(n).len() implies 48 <= #[trigger] decimal(n)[i] <= 57 by {
            if i < d.len() {
                assert(decimal(n)[i] == d[i]);
            }
        }
    }
}

proof fn lemma_encode_utf8_concat(a: Seq<char>, b: Seq<char>)
    ensures
        encode_utf8(a + b) == encode_utf8(a) + encode_utf8(b),
    decreases a.len(),
{
    if a.len() == 0 {
        assert(a + b =~= b);
        assert(encode_utf8(a) + encode_utf8(b) =~= encode_utf8(b));
    } else {
        assert((a + b).drop_first() =~= a.drop_first() + b);
        assert((a + b)[0] == a[0]);
        lemma_encode_utf8_concat(a.drop_first(), b);
        let e = vstd::utf8::encode_scalar(a[0] as u32);
        assert(e + (encode_utf8(a.drop_first()) + encode_utf8(b)) =~= (e + encode_utf8(a.drop_first()))
            + encode_utf8(b));
    }
}

/// Every greeting of an accepted connection has event `GATEWAY_HELLO`, an empty
/// message and `possible_error` false; the greetings of a first shard and of a
/// later one differ only in `starting_shards`.
pub proof fn greeting_is_hello(starting: bool)
    ensures
        ({
            let head = encode_utf8("{\"data\":{\"starting_shards\":"@);
            let status = encode_utf8("},\"event\":\"GATEWAY_HELLO\",\"message\":\"\",\"possible_error\":false"@);
            let k = head.len() + 4 + status.len();
            hello_message(starting) == head + json_bool(starting) + status + hello_message(true).subrange(
                k as int,
                hello_message(true).len() as int,
            )
        }),
{
    let head_text = "{\"data\":{\"starting_shards\":"@;
    let status_text = "},\"event\":\"GATEWAY_HELLO\",\"message\":\"\",\"possible_error\":false"@;
    let rest_text = ",\"rate_limit\":true,\"service\":\"gateway\",\"type\":1}"@;
    let tail_text =
        "},\"event\":\"GATEWAY_HELLO\",\"message\":\"\",\"possible_error\":false,\"rate_limit\":true,\"service\":\"gateway\",\"type\":1}"@;
    reveal_strlit("},\"event\":\"GATEWAY_HELLO\",\"message\":\"\",\"possible_error\":false");
    reveal_strlit(",\"rate_limit\":true,\"service\":\"gateway\",\"type\":1}");
    reveal_strlit(
        "},\"event\":\"GATEWAY_HELLO\",\"message\":\"\",\"possible_error\":false,\"rate_limit\":true,\"service\":\"gateway\",\"type\":1}",
    );
    assert(tail_text =~= status_text + rest_text);
    lemma_encode_utf8_concat(status_text, rest_text);
    let head = encode_utf8(head_text);
    let status = encode_utf8(status_text);
    let rest = encode_utf8(rest_text);
    let k = head.len() + 4 + status.len();
    assert(hello_message(true) =~= head + json_bool(true) + status + rest);
    assert(hello_message(starting) =~= head + json_bool(starting) + status + rest);
    assert(hello_message(true).subrange(k as int, hello_message(true).len() as int) =~= rest);
}

/// A signed command, button click, autocomplete or modal submission whose
/// `application_id` names a registered bot is forwarded to that bot, as the
/// zlib compression of its body.
pub proof fn signed_interaction_reaches_its_bot<T>(
    request: InteractionRequest,
    body: Seq<u8>,
    clients: Map<Seq<char>, ClientBot<T>>,
    step: InteractionStep,
)
    requires
        route_post(true, request, body, clients, step),
        request.kind is UInt,
        request.kind->UInt_0 == INTERACTION_COMMAND || request.kind->UInt_0 == INTERACTION_BUTTON
            || request.kind->UInt_0 == INTERACTION_AUTOCOMPLETE || request.kind->UInt_0
            == INTERACTION_MODAL_SUBMIT,
        request.application_id is Text,
        clients.contains_key(request.application_id->Text_0@),
    ensures
        step matches InteractionStep::Forward { application_id, payload } && application_id@
            == request.application_id->Text_0@ && payload@ == zlib_compress(body, 10),
{
}

/// Only a signed command, button click, autocomplete or modal submission for a
/// registered bot is forwarded.
pub proof fn only_signed_interactions_of_registered_bots_are_forwarded<T>(
    verified: bool,
    request: InteractionRequest,
    body: Seq<u8>,
    clients: Map<Seq<char>, ClientBot<T>>,
    step: InteractionStep,
)
    requires
        route_post(verified, request, body, clients, step),
        step is Forward,
    ensures
        verified,
        request.kind->UInt_0 == INTERACTION_COMMAND || request.kind->UInt_0 == INTERACTION_BUTTON
            || request.kind->UInt_0 == INTERACTION_AUTOCOMPLETE || request.kind->UInt_0
            == INTERACTION_MODAL_SUBMIT,
        request.application_id is Text,
        clients.contains_key(request.application_id->Text_0@),
{
}

/// A signature that verifies under any one of the listed keys is accepted,
/// whatever the message.
pub proof fn each_listed_key_is_tried(pub_keys: Seq<char>, sign: Seq<char>, message: Seq<char>, i: int)
    requires
        0 <= i < split_spaces(encode_utf8(pub_keys)).len(),
        key_authorizes(split_spaces(encode_utf8(pub_keys))[i], encode_utf8(sign), encode_utf8(message)),
    ensures
        any_key_authorizes(pub_keys, sign, message),
{
}

/// The message bears on the check only through Ed25519 verification: two
/// messages that every key and signature verify alike are accepted alike.
pub proof fn message_matters_only_through_verification(
    pub_keys: Seq<char>,
    sign: Seq<char>,
    first: Seq<char>,
    second: Seq<char>,
)
    requires
        forall|k: Seq<u8>, s: Seq<u8>|
            #![trigger ed25519_verify(k, encode_utf8(first), s)]
            #![trigger ed25519_verify(k, encode_utf8(second), s)]
            ed25519_verify(k, encode_utf8(first), s) == ed25519_verify(k, encode_utf8(second), s),
    ensures
        any_key_authorizes(pub_keys, sign, first) == any_key_authorizes(pub_keys, sign, second),
{
    let keys = split_spaces(encode_utf8(pub_keys));
    assert forall|i: int| 0 <= i < keys.len() implies key_authorizes(
        #[trigger] keys[i],
        encode_utf8(sign),
        encode_utf8(first),
    ) == key_authorizes(keys[i], encode_utf8(sign), encode_utf8(second)) by {
        match (crate::encoding::hex_decode(keys[i]), crate::encoding::hex_decode(encode_utf8(sign))) {
            (Some(k), Some(s)) => {
                assert(ed25519_verify(k, encode_utf8(first), s) == ed25519_verify(k, encode_utf8(second), s));
            },
            _ => {},
        }
    }
    if any_key_authorizes(pub_keys, sign, first) {
        let i = choose|i: int|
            0 <= i < keys.len() && key_authorizes(#[trigger] keys[i], encode_utf8(sign), encode_utf8(first));
        assert(key_authorizes(keys[i], encode_utf8(sign), encode_utf8(second)));
    }
    if any_key_authorizes(pub_keys, sign, second) {
        let i = choose|i: int|
            0 <= i < keys.len() && key_authorizes(#[trigger] keys[i], encode_utf8(sign), encode_utf8(second));
        assert(key_authorizes(keys[i], encode_utf8(sign), encode_utf8(first)));
    }
}

} // verus!
