use flate2::read::ZlibDecoder;
use flate2::write::GzEncoder;
use flate2::Compression;
use httpinteraction::routes::websocket::commands::client::ping_client::ping_client;
use httpinteraction::routes::websocket::commands::client::register_client::{
    compute_flag_count, register_client, register_client_is_malformed,
};
use httpinteraction::routes::websocket::commands::client::register_shard::{
    register_shard, register_shard_is_malformed, register_shard_with_hash,
};
use httpinteraction::routes::websocket::commands::client::resume_gateway::resume_gateway;
use httpinteraction::routes::websocket::commands::handler::{command_is_malformed, load_commands, CommandOutcome};
use httpinteraction::routes::websocket::commands::interaction::interaction_return::{
    expire_interaction, interaction_return,
};
use httpinteraction::routes::websocket::messages::gateway::{hello, interaction_dispatch, ping, too_many_shards};
use httpinteraction::routes::websocket::structures::client::{
    Clients, CommandPayload, GatewayCommand, Interactions, JsonField,
};
use httpinteraction::routes::websocket::websocket_server::{
    bot_disconnected, connection_check, convert_to_binary, read_compress, search_shard, try_read_compress,
    update_state, websocket_message, GatewayOpening,
};
use std::io::{Read, Write};

fn text(bytes: &[u8]) -> String {
    String::from_utf8(bytes.to_vec()).unwrap()
}

/// The text is what serde_json writes for the same document.
fn canonical(bytes: &[u8]) {
    let value: serde_json::Value = serde_json::from_slice(bytes).unwrap();
    assert_eq!(serde_json::to_string(&value).unwrap(), text(bytes));
}

fn payload() -> CommandPayload {
    CommandPayload {
        flags: JsonField::Absent,
        encode: JsonField::Absent,
        decode: JsonField::Absent,
        public_key: JsonField::Absent,
        shard_id: JsonField::Absent,
        session_id: JsonField::Absent,
    }
}

fn command(kind: JsonField, d: Option<CommandPayload>) -> GatewayCommand {
    GatewayCommand { kind, d, id: JsonField::Absent, data: JsonField::Absent }
}

fn settings(shard_in: usize, shard_total: usize) -> (String, usize, usize, String) {
    ("pk".to_string(), shard_in, shard_total, "secret".to_string())
}

fn registration(flags: u64) -> GatewayCommand {
    let mut p = payload();
    p.flags = JsonField::UInt(flags);
    command(JsonField::UInt(1), Some(p))
}

fn registered(id: &str) -> Clients<u32> {
    let mut clients: Clients<u32> = Clients::new();
    let out = register_client(registration(1), 9, &mut clients, &id.to_string(), settings(0, 2));
    assert!(matches!(out, CommandOutcome::Send(_)));
    clients
}

#[test]
fn search_shard_uses_the_snowflake_timestamp() {
    assert_eq!(search_shard(175928847299117063, 16), 4);
    assert_eq!(search_shard(41771983423143937, 3), 0);
    assert_eq!(search_shard(0, 1), 0);
}

#[test]
fn convert_to_binary_is_zlib_level_ten() {
    let json = b"{\"type\":3}";
    let compressed = convert_to_binary(json);
    let mut decoder = ZlibDecoder::new(&compressed[..]);
    let mut out = Vec::new();
    decoder.read_to_end(&mut out).unwrap();
    assert_eq!(out, json.to_vec());
    let mut encoder = flate2::write::ZlibEncoder::new(Vec::new(), Compression::new(10));
    encoder.write_all(json).unwrap();
    assert_eq!(compressed, encoder.finish().unwrap());
}

#[test]
fn read_compress_reads_gzip_text() {
    let mut encoder = GzEncoder::new(Vec::new(), Compression::default());
    encoder.write_all("{\"type\":3}".as_bytes()).unwrap();
    let frame = encoder.finish().unwrap();
    assert_eq!(read_compress(&frame), "{\"type\":3}");
    assert_eq!(try_read_compress(&frame), Some("{\"type\":3}".to_string()));
    assert_eq!(try_read_compress(b"not gzip"), None);
}

#[test]
fn connection_rule() {
    let c = |pub_key: &str, secret_key: &str, discord: &str, bots: &str, id: &str, secret: &str| {
        connection_check(
            &pub_key.to_string(),
            &secret_key.to_string(),
            &discord.to_string(),
            &bots.to_string(),
            &id.to_string(),
            &secret.to_string(),
        )
    };
    assert!(c("k", "sec", "k", "bot", "bot", "sec"));
    assert!(!c("k", "sec", "k", "bot", "bot", "wrong"));
    assert!(!c("k", "sec", "k", "bot", "other", "sec"));
    assert!(!c("x", "sec", "k", "bot", "bot", "sec"));
    // One of several configured keys and bot ids.
    assert!(c("k2", "sec", "k1 k2", "b1 b2", "b2", "sec"));
    // A key header with a space is not a key of the list, and the secret is needed.
    assert!(!c("a b", "sec", "k", "bot", "bot", "wrong"));
    assert!(!c("a b", "sec", "a b", "bot", "bot", "sec"));
    assert!(!c("k", "sec", "k k k", "bot", "other", "sec"));
}

#[test]
fn websocket_message_openings() {
    let clients = registered("bot");
    let good = || ("k".to_string(), "sec".to_string(), "k".to_string(), "bot".to_string());
    let id = "bot".to_string();
    let secret = "sec".to_string();
    assert!(matches!(
        websocket_message(&clients, &id, &"wrong".to_string(), 0, 1, good()),
        GatewayOpening::Refused
    ));
    match websocket_message(&clients, &id, &secret, 3, 2, good()) {
        GatewayOpening::TooManyShards(m) => assert_eq!(
            text(&m),
            "{\"data\":{},\"message\":\"Excuse me! I'm terminating the connection due to too many shards.\",\"possible_error\":true,\"rate_limit\":true,\"type\":0}"
        ),
        _ => panic!("expected too many shards"),
    }
    let empty: Clients<u32> = Clients::new();
    assert!(matches!(websocket_message(&empty, &id, &secret, 1, 2, good()), GatewayOpening::Unidentified));
    match websocket_message(&empty, &id, &secret, 0, 2, good()) {
        GatewayOpening::Hello(m) => assert_eq!(
            text(&m),
            "{\"data\":{\"starting_shards\":true},\"event\":\"GATEWAY_HELLO\",\"message\":\"\",\"possible_error\":false,\"rate_limit\":true,\"service\":\"gateway\",\"type\":1}"
        ),
        _ => panic!("expected hello"),
    }
    match websocket_message(&clients, &id, &secret, 1, 2, good()) {
        GatewayOpening::Hello(m) => assert!(text(&m).contains("\"starting_shards\":false")),
        _ => panic!("expected hello"),
    }
}

#[test]
fn gateway_messages_are_canonical_json() {
    canonical(&too_many_shards());
    canonical(&hello(true));
    canonical(&hello(false));
    canonical(&ping());
    let m = interaction_dispatch(4, b"{\"id\":\"1\"}", 2, 3);
    canonical(&m);
    assert_eq!(
        text(&m),
        "{\"data\":{\"flag\":4,\"metadata_http\":[{\"id\":\"1\"}],\"shard_id\":2,\"shard_total\":3},\"event\":\"INTERACTION_DISCORD\",\"service\":\"http_gateway\",\"type\":8}"
    );
}

#[test]
fn flag_counts() {
    assert_eq!(compute_flag_count(0), 1);
    assert_eq!(compute_flag_count(1), 3);
    assert_eq!(compute_flag_count(2), 5);
    assert_eq!(compute_flag_count(3), 7);
    assert_eq!(compute_flag_count(4), 1);
    assert_eq!(compute_flag_count(u64::MAX), 7);
}

fn ready_text(id_json: &str, flags: u64, session: &str, shard_total: usize, hash: &str) -> String {
    format!(
        "{{\"data\":{{\"application_bot\":{{\"flags\":{},\"id\":{},\"public_key\":\"[REDACTED]\"}},\"session_id\":\"{}\",\"shards_config\":[[[[0,{}]]]],\"shards_stats\":[[[[[[[{{\"development\":false,\"disconnected\":false,\"receibe_ping\":0,\"received\":0,\"send_ping\":0,\"sending\":0,\"shard_hash\":\"{}\",\"shard_id\":0}}]]]]]]]}},\"event\":\"GATEWAY_READY\",\"service\":\"gateway\",\"type\":1}}",
        flags, id_json, session, shard_total, hash
    )
}

#[test]
fn register_client_answers_ready() {
    let mut clients: Clients<u32> = Clients::new();
    let id = "bot\"1".to_string();
    let mut p = payload();
    p.flags = JsonField::UInt(3);
    p.encode = JsonField::Bool(true);
    let out = register_client(command(JsonField::UInt(1), Some(p)), 5, &mut clients, &id, settings(0, 2));
    let client = clients.get(&id).unwrap();
    let session = client.ws.session_id.clone();
    let hash = client.ws.others.shards_hash[0].clone();
    assert_eq!(session.len(), 64);
    assert!(session.chars().all(|c| c.is_ascii_alphanumeric()));
    assert_eq!(hash.len(), 15);
    assert_eq!(client.ws.others.shards_stats.len(), 1);
    assert_eq!(client.ws.others.shards_stats[0].shard_hash, hash);
    match out {
        CommandOutcome::Send(m) => {
            canonical(&m);
            assert_eq!(text(&m), ready_text("\"bot\\\"1\"", 7, &session, 2, &hash));
        },
        _ => panic!("expected ready"),
    }
    assert_eq!(client.ws.tx, 5);
    assert!(client.ws.others.encode);
    assert!(!client.ws.others.decode);
    assert_eq!(client.application_bot._flags, 7);
    assert_eq!(client.application_bot.public_key, "pk");
    assert_eq!(client.update_id(), &id);
    assert_eq!(*client.update_tx(), 5);
}

#[test]
fn register_client_reads_decode_from_encode() {
    let mut clients: Clients<u32> = Clients::new();
    let id = "bot".to_string();
    let mut p = payload();
    p.flags = JsonField::UInt(0);
    p.encode = JsonField::Bool(true);
    p.decode = JsonField::Bool(false);
    register_client(command(JsonField::UInt(1), Some(p)), 1, &mut clients, &id, settings(0, 1));
    assert!(clients.get(&id).unwrap().ws.others.decode);
}

#[test]
fn register_client_needs_master_shard_and_flags() {
    let mut clients: Clients<u32> = Clients::new();
    let id = "bot".to_string();
    assert!(matches!(register_client(registration(1), 1, &mut clients, &id, settings(1, 2)), CommandOutcome::Nothing));
    assert!(matches!(
        register_client(command(JsonField::UInt(1), None), 1, &mut clients, &id, settings(0, 2)),
        CommandOutcome::Nothing
    ));
    assert!(matches!(
        register_client(command(JsonField::UInt(1), Some(payload())), 1, &mut clients, &id, settings(0, 2)),
        CommandOutcome::Nothing
    ));
    assert!(!clients.contains_key(&id));
}

#[test]
fn registration_malformed_data_is_detected() {
    let mut p = payload();
    p.flags = JsonField::Text("1".to_string());
    assert!(register_client_is_malformed(&command(JsonField::UInt(1), Some(p)), 0));
    let mut p = payload();
    p.flags = JsonField::UInt(1);
    p.decode = JsonField::Bool(true);
    assert!(register_client_is_malformed(&command(JsonField::UInt(1), Some(p)), 0));
    assert!(!register_client_is_malformed(&registration(1), 0));
}

#[test]
fn register_then_ping() {
    let clients = registered("bot");
    match ping_client(&clients, &"bot".to_string()) {
        CommandOutcome::Send(m) => {
            assert_eq!(text(&m), "{\"data\":{},\"event\":\"GATEWAY_PING\",\"service\":\"gateway\",\"type\":3}")
        },
        _ => panic!("expected ping"),
    }
    assert!(matches!(ping_client(&clients, &"other".to_string()), CommandOutcome::Nothing));
}

#[test]
fn register_twice_keeps_one_client() {
    let mut clients = registered("bot");
    register_client(registration(0), 3, &mut clients, &"bot".to_string(), settings(0, 4));
    let client = clients.get(&"bot".to_string()).unwrap();
    assert_eq!(client.ws.tx, 3);
    assert_eq!(client.ws.shard_total, 4);
    update_state(&mut clients, &"bot".to_string());
    assert!(clients.is_empty());
}

fn shard_command(key: &str, shard: u64) -> GatewayCommand {
    let mut p = payload();
    p.public_key = JsonField::Text(key.to_string());
    p.shard_id = JsonField::UInt(shard);
    command(JsonField::UInt(4), Some(p))
}

#[test]
fn register_shard_lists_the_shards() {
    let mut clients = registered("bot");
    let id = "bot".to_string();
    let master_hash = clients.get(&id).unwrap().ws.others.shards_hash[0].clone();
    match register_shard_with_hash(shard_command("pk", 1), &mut clients, &id, "ABC".to_string()) {
        CommandOutcome::Send(m) => {
            canonical(&m);
            assert_eq!(
                text(&m),
                format!(
                    "{{\"data\":[[[[{{\"development\":false,\"disconnected\":false,\"receibe_ping\":0,\"received\":0,\"send_ping\":0,\"sending\":0,\"shard_hash\":\"ABC\",\"shard_id\":1}},{{\"development\":false,\"disconnected\":false,\"receibe_ping\":0,\"received\":0,\"send_ping\":0,\"sending\":0,\"shard_hash\":\"{}\",\"shard_id\":0}}]]]],\"event\":\"GATEWAY_SHARD_INFO\",\"service\":\"gateway\",\"type\":1}}",
                    master_hash
                )
            );
        },
        _ => panic!("expected shard info"),
    }
    match register_shard(shard_command("pk", 2), &mut clients, &id) {
        CommandOutcome::Send(m) => canonical(&m),
        _ => panic!("expected shard info"),
    }
    let stats = &clients.get(&id).unwrap().ws.others;
    assert_eq!(stats.shards_stats.len(), 3);
    assert_eq!(stats.shards_stats[0].shard_id, 2);
    assert_eq!(stats.shards_stats[1].shard_id, 1);
    assert_eq!(stats.shards_stats[2].shard_id, 0);
    assert_eq!(stats.shards_hash[1], "ABC");
    let hash = &stats.shards_hash[0];
    assert_eq!(hash.len(), 15);
    assert!(hash.chars().all(|c| c.is_ascii_alphanumeric()));
}

#[test]
fn register_shard_twice_changes_nothing() {
    let mut clients = registered("bot");
    let id = "bot".to_string();
    register_shard_with_hash(shard_command("pk", 1), &mut clients, &id, "A".to_string());
    assert!(matches!(
        register_shard_with_hash(shard_command("pk", 1), &mut clients, &id, "B".to_string()),
        CommandOutcome::Nothing
    ));
    // The master shard was registered with the client.
    assert!(matches!(
        register_shard_with_hash(shard_command("pk", 0), &mut clients, &id, "C".to_string()),
        CommandOutcome::Nothing
    ));
    assert_eq!(clients.get(&id).unwrap().ws.others.shards_stats.len(), 2);
}

#[test]
fn register_shard_needs_the_public_key() {
    let mut clients = registered("bot");
    let id = "bot".to_string();
    assert!(matches!(register_shard(shard_command("other", 1), &mut clients, &id), CommandOutcome::Nothing));
    assert!(matches!(register_shard(shard_command("pk", 1), &mut clients, &"x".to_string()), CommandOutcome::Nothing));
    let mut p = payload();
    p.public_key = JsonField::UInt(1);
    p.shard_id = JsonField::UInt(1);
    assert!(register_shard_is_malformed(&command(JsonField::UInt(4), Some(p)), &clients, &id));
    let mut p = payload();
    p.public_key = JsonField::Text("pk".to_string());
    p.shard_id = JsonField::Text("1".to_string());
    assert!(register_shard_is_malformed(&command(JsonField::UInt(4), Some(p)), &clients, &id));
    assert!(!register_shard_is_malformed(&shard_command("other", 1), &clients, &id));
}

#[test]
fn resume_gateway_needs_the_session() {
    let clients = registered("bot");
    let id = "bot".to_string();
    let resume = |session: JsonField| {
        let mut p = payload();
        p.flags = JsonField::UInt(0);
        p.session_id = session;
        command(JsonField::UInt(6), Some(p))
    };
    let session = clients.get(&id).unwrap().ws.session_id.clone();
    match resume_gateway(resume(JsonField::Text(session.clone())), &clients, &id, settings(0, 2)) {
        CommandOutcome::Send(m) => {
            canonical(&m);
            assert_eq!(
                text(&m),
                "{\"data\":{\"application_bot\":{\"flags\":null,\"id\":\"bot\",\"public_key\":\"[REDACTED]\",\"shards_config\":[[[[0,2]]]]},\"shards_stats\":[[[[[[[]]]]]]]},\"event\":\"GATEWAY_RESUME\",\"service\":\"gateway\",\"type\":1}"
            );
        },
        _ => panic!("expected resume"),
    }
    assert!(matches!(
        resume_gateway(resume(JsonField::Text("s".to_string())), &clients, &id, settings(0, 2)),
        CommandOutcome::Nothing
    ));
    assert!(matches!(
        resume_gateway(resume(JsonField::Text(session)), &clients, &id, settings(1, 2)),
        CommandOutcome::Nothing
    ));
    assert!(matches!(
        resume_gateway(resume(JsonField::Text(String::new())), &clients, &id, settings(0, 2)),
        CommandOutcome::Nothing
    ));
}

#[test]
fn interaction_return_stores_and_expires() {
    let clients = registered("bot");
    let mut interactions = Interactions::new();
    let data = GatewayCommand {
        kind: JsonField::UInt(5),
        d: None,
        id: JsonField::Text("42".to_string()),
        data: JsonField::Object("{\"type\":4}".to_string()),
    };
    match interaction_return(data, &clients, &"bot".to_string(), &mut interactions) {
        CommandOutcome::Expire(k) => {
            assert_eq!(k, "42");
            assert!(interactions.contains_key(&k));
            expire_interaction(&mut interactions, &k);
            assert!(!interactions.contains_key(&k));
        },
        _ => panic!("expected expire"),
    }
    let unregistered = GatewayCommand {
        kind: JsonField::UInt(5),
        d: None,
        id: JsonField::Text("42".to_string()),
        data: JsonField::Null,
    };
    assert!(matches!(
        interaction_return(unregistered, &clients, &"other".to_string(), &mut interactions),
        CommandOutcome::Nothing
    ));
    let numeric = GatewayCommand { kind: JsonField::UInt(5), d: None, id: JsonField::UInt(42), data: JsonField::Null };
    assert!(matches!(
        interaction_return(numeric, &clients, &"bot".to_string(), &mut interactions),
        CommandOutcome::Nothing
    ));
    assert!(interactions.is_empty());
}

#[test]
fn load_commands_dispatches_on_type() {
    let mut clients: Clients<u32> = Clients::new();
    let mut interactions = Interactions::new();
    let id = "bot".to_string();
    assert!(matches!(
        load_commands(command(JsonField::Absent, None), 1, &mut clients, &id, &mut interactions, settings(0, 1)),
        CommandOutcome::Nothing
    ));
    assert!(matches!(
        load_commands(command(JsonField::UInt(3), None), 1, &mut clients, &id, &mut interactions, settings(0, 1)),
        CommandOutcome::Nothing
    ));
    assert!(matches!(
        load_commands(registration(0), 1, &mut clients, &id, &mut interactions, settings(0, 1)),
        CommandOutcome::Send(_)
    ));
    assert!(matches!(
        load_commands(command(JsonField::UInt(3), None), 1, &mut clients, &id, &mut interactions, settings(0, 1)),
        CommandOutcome::Send(_)
    ));
    assert!(matches!(
        load_commands(command(JsonField::UInt(6), None), 1, &mut clients, &id, &mut interactions, settings(0, 1)),
        CommandOutcome::Nothing
    ));
    assert!(matches!(
        load_commands(shard_command("pk", 3), 1, &mut clients, &id, &mut interactions, settings(0, 1)),
        CommandOutcome::Send(_)
    ));
    bot_disconnected(&clients, &id);
    assert!(clients.contains_key(&id));
    let mut p = payload();
    p.flags = JsonField::OtherNumber;
    assert!(command_is_malformed(&command(JsonField::UInt(1), Some(p)), &clients, &id, 0));
    assert!(!command_is_malformed(&command(JsonField::UInt(3), None), &clients, &id, 0));
}

#[test]
fn registration_leaves_other_bots() {
    let mut clients = registered("first");
    register_client(registration(2), 4, &mut clients, &"second".to_string(), settings(0, 1));
    let first = clients.get(&"first".to_string()).unwrap();
    assert_eq!(first.ws.tx, 9);
    assert_eq!(first.application_bot._flags, 3);
    assert_eq!(clients.get(&"second".to_string()).unwrap().application_bot._flags, 5);
}

#[test]
fn register_with_flags_zero_keeps_flag_one() {
    let mut clients: Clients<u32> = Clients::new();
    let mut p = payload();
    p.public_key = JsonField::Text("key".to_string());
    p.flags = JsonField::UInt(0);
    match register_client(command(JsonField::UInt(1), Some(p)), 0, &mut clients, &"id-bot".to_string(), settings(0, 1)) {
        CommandOutcome::Send(m) => {
            let value: serde_json::Value = serde_json::from_slice(&m).unwrap();
            assert_eq!(value["event"], "GATEWAY_READY");
            assert_eq!(value["type"], 1);
            assert_eq!(value["data"]["application_bot"]["flags"], 1);
            assert_eq!(value["data"]["application_bot"]["id"], "id-bot");
            assert_eq!(value["data"]["application_bot"]["public_key"], "[REDACTED]");
            assert_eq!(value["data"]["shards_config"][0][0][0][0], 0);
            assert_eq!(value["data"]["shards_config"][0][0][0][1], 1);
            assert!(value["data"]["session_id"].is_string());
            assert_eq!(value["data"]["shards_stats"][0][0][0][0][0][0][0]["shard_id"], 0);
        },
        _ => panic!("expected ready"),
    }
}
