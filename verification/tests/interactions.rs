use ed25519_dalek::{Keypair, PublicKey, SecretKey, Signer};
use httpinteraction::errors::{error_api, RejectionKind};
use httpinteraction::routes::interaction::interaction_create::{
    after_forward, interaction_create, interaction_lookup, route_interaction, AfterForward, InteractionRequest,
    InteractionStep,
};
use httpinteraction::routes::websocket::commands::client::register_client::register_client;
use httpinteraction::routes::websocket::commands::interaction::interaction_return::interaction_return;
use httpinteraction::routes::websocket::structures::client::{
    Clients, CommandPayload, GatewayCommand, Interactions, JsonField,
};
use httpinteraction::structures::connection_state::ConnectionStateKraken;
use httpinteraction::structures::interaction::InteractionData;
use httpinteraction::utils::constants::{
    FLAG_INTERACTION_MODAL_SUBMIT, INTERACTION_AUTOCOMPLETE, INTERACTION_BUTTON, INTERACTION_COMMAND,
    INTERACTION_MODAL_SUBMIT, INTERACTION_PING,
};

const UNAUTHORIZED: &str = "{\"code\":\"HTTP_UNAUTHORIZED\",\"error\":true,\"message\":\"Uh! It appears that this signature or metadata is incorrect. Check it out: https://discord.com/developers/docs/interactions/receiving-and-responding\",\"status_code\":401}";
const UNKNOWN: &str = "{\"code_error\":\"HTTP_INTERACTION_UNKNOWN\",\"error\":false,\"message\":\"Interaction unknown or not recognized\",\"status_code\":200}";

fn text(bytes: &[u8]) -> String {
    String::from_utf8(bytes.to_vec()).unwrap()
}

fn reply(step: InteractionStep) -> (u16, String) {
    match step {
        InteractionStep::Reply(h) => (h.status, text(&h.body)),
        InteractionStep::Forward { .. } => panic!("expected a reply"),
    }
}

fn request(kind: u64, app: JsonField, id: JsonField) -> InteractionRequest {
    InteractionRequest { kind: JsonField::UInt(kind), application_id: app, id }
}

fn clients_with(id: &str) -> Clients<u32> {
    let mut clients: Clients<u32> = Clients::new();
    let d = CommandPayload {
        flags: JsonField::UInt(0),
        encode: JsonField::Absent,
        decode: JsonField::Absent,
        public_key: JsonField::Absent,
        shard_id: JsonField::Absent,
        session_id: JsonField::Absent,
    };
    let data = GatewayCommand { kind: JsonField::UInt(1), d: Some(d), id: JsonField::Absent, data: JsonField::Absent };
    register_client(data, 0, &mut clients, &id.to_string(), ("pk".to_string(), 0, 1, "s".to_string()));
    clients
}

#[test]
fn unsigned_requests_are_refused() {
    let clients = clients_with("app");
    let r = reply(route_interaction(false, &request(INTERACTION_PING, JsonField::Absent, JsonField::Absent), b"{}", &clients));
    assert_eq!(r, (401, UNAUTHORIZED.to_string()));
}

#[test]
fn ping_is_answered_with_pong() {
    let clients: Clients<u32> = Clients::new();
    let r = reply(route_interaction(true, &request(INTERACTION_PING, JsonField::Absent, JsonField::Absent), b"{}", &clients));
    assert_eq!(r, (200, "{\"type\":1}".to_string()));
}

#[test]
fn missing_application_is_not_acceptable() {
    let clients = clients_with("app");
    for kind in [INTERACTION_COMMAND, INTERACTION_BUTTON, INTERACTION_AUTOCOMPLETE, INTERACTION_MODAL_SUBMIT] {
        let (status, body) = reply(route_interaction(true, &request(kind, JsonField::Absent, JsonField::Absent), b"{}", &clients));
        assert_eq!(status, 406);
        assert_eq!(body, "{\"message_err\":\"API cannot accept this metadata because application was not included! Please resend again.\",\"type\":5}");
    }
}

#[test]
fn a_registered_bot_gets_the_interaction() {
    let clients = clients_with("app");
    let body = b"{\"application_id\":\"app\",\"type\":2}";
    match route_interaction(true, &request(INTERACTION_COMMAND, JsonField::Text("app".to_string()), JsonField::Absent), body, &clients) {
        InteractionStep::Forward { application_id, payload } => {
            assert_eq!(application_id, "app");
            let mut decoder = flate2::read::ZlibDecoder::new(&payload[..]);
            let mut out = Vec::new();
            std::io::Read::read_to_end(&mut decoder, &mut out).unwrap();
            assert_eq!(out, body.to_vec());
        },
        _ => panic!("expected forward"),
    }
}

#[test]
fn an_offline_bot_is_reported() {
    let clients = clients_with("app");
    let (status, body) = reply(route_interaction(true, &request(INTERACTION_COMMAND, JsonField::Text("other".to_string()), JsonField::Absent), b"{}", &clients));
    assert_eq!(status, 200);
    assert!(body.contains("I didn't get a response from the bot"));
    let (status, body) = reply(route_interaction(true, &request(INTERACTION_BUTTON, JsonField::UInt(1), JsonField::Absent), b"{}", &clients));
    assert_eq!((status, body), (500, UNKNOWN.to_string()));
    let (status, body) = reply(route_interaction(true, &request(9, JsonField::Text("app".to_string()), JsonField::Absent), b"{}", &clients));
    assert_eq!((status, body), (500, UNKNOWN.to_string()));
}

#[test]
fn interaction_create_checks_the_signature() {
    let secret = SecretKey::from_bytes(&[3u8; 32]).unwrap();
    let public: PublicKey = (&secret).into();
    let pair = Keypair { secret, public };
    let body = "{\"type\":1}";
    let signature = pair.sign(format!("{}{}", "123", body).as_bytes());
    let clients: Clients<u32> = Clients::new();
    let req = request(INTERACTION_PING, JsonField::Absent, JsonField::Absent);
    let key = hex::encode(pair.public.as_bytes());
    let sig = hex::encode(signature.to_bytes());
    let step = interaction_create(key.clone(), sig.clone(), "123".to_string(), body.to_string(), &req, &clients);
    assert_eq!(reply(step.unwrap()), (200, "{\"type\":1}".to_string()));
    let step = interaction_create(key.clone(), sig.clone(), "124".to_string(), body.to_string(), &req, &clients);
    assert_eq!(reply(step.unwrap()).0, 401);
    let untyped = InteractionRequest { kind: JsonField::Absent, application_id: JsonField::Absent, id: JsonField::Absent };
    assert!(interaction_create(key.clone(), sig.clone(), "123".to_string(), body.to_string(), &untyped, &clients).is_none());
    // Without a valid signature the type is not looked at.
    assert_eq!(reply(interaction_create(key, sig, "1".to_string(), body.to_string(), &untyped, &clients).unwrap()).0, 401);
}

#[test]
fn interaction_create_accepts_any_configured_key() {
    let first = SecretKey::from_bytes(&[4u8; 32]).unwrap();
    let first_public: PublicKey = (&first).into();
    let second = SecretKey::from_bytes(&[5u8; 32]).unwrap();
    let second_public: PublicKey = (&second).into();
    let second_pair = Keypair { secret: second, public: second_public };
    let body = "{\"type\":1}";
    let signature = hex::encode(second_pair.sign(format!("{}{}", "77", body).as_bytes()).to_bytes());
    let clients: Clients<u32> = Clients::new();
    let req = request(INTERACTION_PING, JsonField::Absent, JsonField::Absent);
    let keys = format!("{} {}", hex::encode(first_public.as_bytes()), hex::encode(second_public.as_bytes()));
    let step = interaction_create(keys, signature.clone(), "77".to_string(), body.to_string(), &req, &clients);
    assert_eq!(reply(step.unwrap()), (200, "{\"type\":1}".to_string()));
    let only_first = hex::encode(first_public.as_bytes());
    let step = interaction_create(only_first.clone(), signature.clone(), "77".to_string(), body.to_string(), &req, &clients);
    assert_eq!(reply(step.unwrap()), (401, UNAUTHORIZED.to_string()));
    let doubled = format!("{} {}", only_first, only_first);
    let step = interaction_create(doubled, signature, "77".to_string(), body.to_string(), &req, &clients);
    assert_eq!(reply(step.unwrap()).0, 401);
}

#[test]
fn after_forward_answers() {
    let reply_of = |a: AfterForward| match a {
        AfterForward::Reply(h) => (h.status, text(&h.body)),
        AfterForward::AwaitReturn => panic!("expected a reply"),
    };
    let (status, body) = reply_of(after_forward(INTERACTION_BUTTON, false));
    assert_eq!(status, 200);
    assert!(body.contains("The connection was lost by the bot."));
    assert_eq!(reply_of(after_forward(INTERACTION_COMMAND, true)), (200, "{\"type\":5}".to_string()));
    assert_eq!(reply_of(after_forward(INTERACTION_AUTOCOMPLETE, true)), (200, "{}".to_string()));
    assert!(matches!(after_forward(INTERACTION_BUTTON, true), AfterForward::AwaitReturn));
    assert!(matches!(after_forward(INTERACTION_MODAL_SUBMIT, true), AfterForward::AwaitReturn));
}

#[test]
fn returned_interaction_is_answered() {
    let clients = clients_with("app");
    let mut interactions = Interactions::new();
    let returned = GatewayCommand {
        kind: JsonField::UInt(5),
        d: None,
        id: JsonField::Text("77".to_string()),
        data: JsonField::Object("{\"type\":4}".to_string()),
    };
    interaction_return(returned, &clients, &"app".to_string(), &mut interactions);
    let found = interaction_lookup(INTERACTION_BUTTON, &request(INTERACTION_BUTTON, JsonField::Absent, JsonField::Text("77".to_string())), &interactions);
    assert_eq!((found.status, text(&found.body)), (200, "{\"type\":4}".to_string()));
    let missing = interaction_lookup(INTERACTION_BUTTON, &request(INTERACTION_BUTTON, JsonField::Absent, JsonField::Text("78".to_string())), &interactions);
    assert_eq!(text(&missing.body), "{\"type\":5}");
    let modal = interaction_lookup(INTERACTION_MODAL_SUBMIT, &request(INTERACTION_MODAL_SUBMIT, JsonField::Absent, JsonField::UInt(77)), &interactions);
    assert_eq!(text(&modal.body), "{\"components\":[{\"components\":[{\"choices\":[]}],\"type\":1}],\"type\":5}");
}

#[test]
fn a_returned_value_that_is_no_object_is_null() {
    let clients = clients_with("app");
    let mut interactions = Interactions::new();
    let returned = GatewayCommand { kind: JsonField::UInt(5), d: None, id: JsonField::Text("1".to_string()), data: JsonField::Absent };
    interaction_return(returned, &clients, &"app".to_string(), &mut interactions);
    let found = interaction_lookup(INTERACTION_MODAL_SUBMIT, &request(INTERACTION_MODAL_SUBMIT, JsonField::Absent, JsonField::Text("1".to_string())), &interactions);
    assert_eq!(text(&found.body), "null");
}

#[test]
fn error_answers() {
    let e = error_api(&RejectionKind::NotFound);
    assert_eq!((e.code, e.code_error.as_str(), e.message.as_str(), e.error), (404, "NOT_FOUND", "Could not find route", true));
    let e = error_api(&RejectionKind::BadRequestApi);
    assert_eq!((e.code, e.code_error.as_str()), (400, "BAD_REQUEST_API"));
    let e = error_api(&RejectionKind::BodyDeserialize(Some("missing field `denom`".to_string())));
    assert_eq!((e.code, e.code_error.as_str(), e.message.as_str()), (400, "FIELD_WRONG", "There are errors in the metadata, please check it."));
    let e = error_api(&RejectionKind::BodyDeserialize(Some("expected value".to_string())));
    assert_eq!((e.code_error.as_str(), e.message.as_str()), ("BAD_REQUEST", "Invalid metadata."));
    let e = error_api(&RejectionKind::BodyDeserialize(None));
    assert_eq!((e.code_error.as_str(), e.message.as_str()), ("BAD_REQUEST", "Unknown error."));
    let e = error_api(&RejectionKind::MethodNotAllowed);
    assert_eq!((e.code, e.code_error.as_str()), (405, "METHOD_NOT_ALLOWED"));
    let e = error_api(&RejectionKind::Unhandled);
    assert_eq!((e.code, e.code_error.as_str()), (500, "UNHANDLED_REJECTION"));
}

#[derive(Debug)]
#[allow(dead_code)]
struct Mirror {
    application_id: String,
    _type: u64,
    id: String,
    token: String,
}

#[test]
fn interaction_data_debug_text() {
    let data = InteractionData {
        application_id: "12\"3".to_string(),
        _type: 2,
        id: "line\nbreak".to_string(),
        token: "t".to_string(),
    };
    let mirror = Mirror {
        application_id: data.application_id.clone(),
        _type: data._type,
        id: data.id.clone(),
        token: data.token.clone(),
    };
    assert_eq!(data.fmt(), format!("{:?}", mirror).replacen("Mirror", "InteractionData", 1));
    assert_eq!(data.fmt(), "InteractionData { application_id: \"12\\\"3\", _type: 2, id: \"line\\nbreak\", token: \"t\" }");
}

#[test]
fn connection_state_getters() {
    let state = ConnectionStateKraken {
        session_id: "s".to_string(),
        id: "i".to_string(),
        bot_id: "b".to_string(),
        master_shard: "m".to_string(),
        secret: "x".to_string(),
        scope: vec![1, 2],
        type_interaction: FLAG_INTERACTION_MODAL_SUBMIT as u64,
        sync: crossbeam::sync::WaitGroup::new(),
    };
    assert_eq!(state.clone().session_id(), "s");
    assert_eq!(state.clone().id(), "i");
    assert_eq!(state.clone().bot_id(), "b");
    assert_eq!(state.clone().master_shard(), "m");
    assert_eq!(state.clone().secret(), "x");
    assert_eq!(state.clone().scope(), vec![1, 2]);
    assert_eq!(state.clone().type_interaction(), 32);
    let _group = state.sync();
}
