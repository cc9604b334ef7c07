use crate::encoding::push_bytes;
use crate::routes::websocket::structures::client::{ClientBot, Clients, Interaction, Interactions, JsonField};
use crate::routes::websocket::websocket_server::{convert_to_binary, zlib_compress};
use crate::sign_mod::{any_key_authorizes, verify_any_key};
use crate::utils::constants::{
    INTERACTION_AUTOCOMPLETE, INTERACTION_BUTTON, INTERACTION_COMMAND, INTERACTION_MODAL_SUBMIT,
    INTERACTION_PING,
};
use vstd::prelude::*;
use vstd::utf8::encode_utf8;

verus! {

/// An HTTP answer: a status code and a JSON body.
pub struct HttpReply {
    pub status: u16,
    pub body: Vec<u8>,
}

/// The fields of an interaction request that the routing reads.
pub struct InteractionRequest {
    /// `type`.
    pub kind: JsonField,
    /// `application_id`.
    pub application_id: JsonField,
    /// `id`.
    pub id: JsonField,
}

/// What to do with an interaction request.
pub enum InteractionStep {
    Reply(HttpReply),
    /// Send `payload` to the bot registered as `application_id`, then call
    /// `after_forward` with whether the send went through.
    Forward { application_id: String, payload: Vec<u8> },
}

/// What to do once an interaction was handed to its bot.
pub enum AfterForward {
    Reply(HttpReply),
    /// Wait for the bot to return the interaction, then call `interaction_lookup`.
    AwaitReturn,
}

pub open spec fn pong_body() -> Seq<u8> {
    encode_utf8("{\"type\":1}"@)
}

pub open spec fn missing_application_body() -> Seq<u8> {
    encode_utf8(
        "{\"message_err\":\"API cannot accept this metadata because application was not included! Please resend again.\",\"type\":5}"@,
    )
}

pub open spec fn connection_lost_body() -> Seq<u8> {
    encode_utf8(
        "{\"data\":{\"allowed_mentions\":[],\"content\":\"There was a problem with the interaction!\",\"embeds\":[{\"color\":\"#ff1212\",\"description\":\"The connection was lost by the bot. Contact bot developer.\"}],\"tts\":false},\"type\":4}"@,
    )
}

pub open spec fn bot_offline_body() -> Seq<u8> {
    encode_utf8(
        "{\"data\":{\"allowed_mentions\":[],\"content\":\"There was a problem with the interaction!\",\"embeds\":[{\"color\":\"#ff1212\",\"description\":\"I didn't get a response from the bot, try again or you can contact the developer through the support server.\"}],\"tts\":false},\"type\":4}"@,
    )
}

pub open spec fn deferred_body() -> Seq<u8> {
    encode_utf8("{\"type\":5}"@)
}

pub open spec fn empty_body() -> Seq<u8> {
    encode_utf8("{}"@)
}

pub open spec fn modal_fallback_body() -> Seq<u8> {
    encode_utf8("{\"components\":[{\"components\":[{\"choices\":[]}],\"type\":1}],\"type\":5}"@)
}

pub open spec fn unknown_body() -> Seq<u8> {
    encode_utf8(
        "{\"code_error\":\"HTTP_INTERACTION_UNKNOWN\",\"error\":false,\"message\":\"Interaction unknown or not recognized\",\"status_code\":200}"@,
    )
}

pub open spec fn unauthorized_body() -> Seq<u8> {
    encode_utf8(
        "{\"code\":\"HTTP_UNAUTHORIZED\",\"error\":true,\"message\":\"Uh! It appears that this signature or metadata is incorrect. Check it out: https://discord.com/developers/docs/interactions/receiving-and-responding\",\"status_code\":401}"@,
    )
}

/// The body that answers with what a bot returned: the object itself, or `null`
/// for anything that is not an object.
pub open spec fn stored_body(data: JsonField) -> Seq<u8> {
    match data {
        JsonField::Object(text) => encode_utf8(text@),
        _ => encode_utf8("null"@),
    }
}

fn text_reply(status: u16, text: &str) -> (r: HttpReply)
    ensures
        r.status == status,
        r.body@ == encode_utf8(text@),
{
    let mut body: Vec<u8> = Vec::new();
    push_bytes(&mut body, text.as_bytes());
    HttpReply { status, body }
}

/// Whether `step` is the reply `status` with `body`.
pub open spec fn replies(step: InteractionStep, status: u16, body: Seq<u8>) -> bool {
    step matches InteractionStep::Reply(h) && h.status == status && h.body@ == body
}

/// Whether `t` is a type that goes to a bot.
pub open spec fn forwarded_type(t: u64) -> bool {
    t == INTERACTION_COMMAND || t == INTERACTION_BUTTON || t == INTERACTION_AUTOCOMPLETE || t
        == INTERACTION_MODAL_SUBMIT
}

/// How a request is routed; `verified` tells whether the signature checks under
/// one of the configured keys (see `interaction_create`). Unsigned requests are
/// refused with 401; a ping is
/// answered with a pong; the other known types need an `application_id`
/// (406 without one) and go to the bot registered under it. A command for a bot
/// that is not registered gets an apology; any other request that reaches no bot
/// gets 500.
pub open spec fn route_post<T>(
    verified: bool,
    request: InteractionRequest,
    body: Seq<u8>,
    clients: Map<Seq<char>, ClientBot<T>>,
    step: InteractionStep,
) -> bool {
    if !verified {
        replies(step, 401, unauthorized_body())
    } else {
        let t = request.kind->UInt_0;
        if t == INTERACTION_PING {
            replies(step, 200, pong_body())
        } else if forwarded_type(t) {
            if !request.application_id.present() {
                replies(step, 406, missing_application_body())
            } else if request.application_id is Text && clients.contains_key(
                request.application_id->Text_0@,
            ) {
                step matches InteractionStep::Forward { application_id, payload } && application_id@
                    == request.application_id->Text_0@ && payload@ == zlib_compress(body, 10)
            } else if t == INTERACTION_COMMAND {
                replies(step, 200, bot_offline_body())
            } else {
                replies(step, 500, unknown_body())
            }
        } else {
            replies(step, 500, unknown_body())
        }
    }
}

/// Routes an interaction request whose signature check gave `verified`; `body`
/// is the request's JSON text. A signed request without an unsigned integer
/// `type` is refused by `requires`.
pub fn route_interaction<T>(
    verified: bool,
    request: &InteractionRequest,
    body: &[u8],
    clients: &Clients<T>,
) -> (r: InteractionStep)
    requires
        verified ==> request.kind is UInt,
    ensures
        route_post(verified, *request, body@, clients@, r),
{
    if !verified {
        return InteractionStep::Reply(
            text_reply(
                401,
                "{\"code\":\"HTTP_UNAUTHORIZED\",\"error\":true,\"message\":\"Uh! It appears that this signature or metadata is incorrect. Check it out: https://discord.com/developers/docs/interactions/receiving-and-responding\",\"status_code\":401}",
            ),
        );
    }
    let type_int = match request.kind {
        JsonField::UInt(n) => n,
        _ => {
            proof {
                assert(false);
            }
            0
        },
    };
    if type_int == INTERACTION_PING {
        return InteractionStep::Reply(text_reply(200, "{\"type\":1}"));
    }
    if type_int == INTERACTION_COMMAND || type_int == INTERACTION_BUTTON || type_int
        == INTERACTION_AUTOCOMPLETE || type_int == INTERACTION_MODAL_SUBMIT {
        if !request.application_id.is_present() {
            return InteractionStep::Reply(
                text_reply(
                    406,
                    "{\"message_err\":\"API cannot accept this metadata because application was not included! Please resend again.\",\"type\":5}",
                ),
            );
        }
        match &request.application_id {
            JsonField::Text(app) => {
                if clients.contains_key(app) {
                    return InteractionStep::Forward {
                        application_id: app.clone(),
                        payload: convert_to_binary(body),
                    };
                }
            },
            _ => {},
        }
        if type_int == INTERACTION_COMMAND {
            return InteractionStep::Reply(
                text_reply(
                    200,
                    "{\"data\":{\"allowed_mentions\":[],\"content\":\"There was a problem with the interaction!\",\"embeds\":[{\"color\":\"#ff1212\",\"description\":\"I didn't get a response from the bot, try again or you can contact the developer through the support server.\"}],\"tts\":false},\"type\":4}",
                ),
            );
        }
    }
    InteractionStep::Reply(
        text_reply(
            500,
            "{\"code_error\":\"HTTP_INTERACTION_UNKNOWN\",\"error\":false,\"message\":\"Interaction unknown or not recognized\",\"status_code\":200}",
        ),
    )
}

/// Checks the signature of an interaction request and routes it. `pub_key` is
/// the configured list of Discord public keys, separated by spaces, of which one
/// must verify the signature; `sign` and `timestamp` the request's
/// signature headers, `body` its JSON text. `None` stands for a signed request
/// whose `type` is not an unsigned integer, which is not answered.
pub fn interaction_create<T>(
    pub_key: String,
    sign: String,
    timestamp: String,
    body: String,
    request: &InteractionRequest,
    clients: &Clients<T>,
) -> (r: Option<InteractionStep>)
    ensures
        ({
            let verified = any_key_authorizes(pub_key@, sign@, timestamp@ + body@);
            &&& r is None <==> (verified && !(request.kind is UInt))
            &&& r matches Some(step) ==> route_post(verified, *request, encode_utf8(body@), clients@, step)
        }),
{
    let message = timestamp.concat(body.as_str());
    let verified = verify_any_key(pub_key.as_str(), sign.as_str(), message.as_str());
    let well_typed = match request.kind {
        JsonField::UInt(_) => true,
        _ => false,
    };
    if verified && !well_typed {
        return None;
    }
    Some(route_interaction(verified, request, body.as_str().as_bytes(), clients))
}

/// The answer once the interaction was (or was not) handed to its bot of type
/// `kind`: a lost connection is reported; a command is deferred; an autocomplete
/// gets an empty object; a button or a modal waits for the bot's return.
pub fn after_forward(kind: u64, sent: bool) -> (r: AfterForward)
    requires
        forwarded_type(kind),
    ensures
        !sent ==> (r matches AfterForward::Reply(h) && h.status == 200 && h.body@ == connection_lost_body()),
        sent && kind == INTERACTION_COMMAND ==> (r matches AfterForward::Reply(h) && h.status == 200
            && h.body@ == deferred_body()),
        sent && kind == INTERACTION_AUTOCOMPLETE ==> (r matches AfterForward::Reply(h) && h.status
            == 200 && h.body@ == empty_body()),
        sent && (kind == INTERACTION_BUTTON || kind == INTERACTION_MODAL_SUBMIT) ==> r is AwaitReturn,
{
    if !sent {
        return AfterForward::Reply(
            text_reply(
                200,
                "{\"data\":{\"allowed_mentions\":[],\"content\":\"There was a problem with the interaction!\",\"embeds\":[{\"color\":\"#ff1212\",\"description\":\"The connection was lost by the bot. Contact bot developer.\"}],\"tts\":false},\"type\":4}",
            ),
        );
    }
    if kind == INTERACTION_COMMAND {
        AfterForward::Reply(text_reply(200, "{\"type\":5}"))
    } else if kind == INTERACTION_AUTOCOMPLETE {
        AfterForward::Reply(text_reply(200, "{}"))
    } else {
        AfterForward::AwaitReturn
    }
}

/// Whether looking up the returned interaction would stop: the cache holds
/// something and the request has no `id`.
pub open spec fn lookup_fails(request: InteractionRequest, interactions: Map<Seq<char>, Interaction>) -> bool {
    !(interactions =~= Map::<Seq<char>, Interaction>::empty()) && !request.id.present()
}

/// The answer to a button or modal once its bot had time to return it: what the
/// bot stored under the request's `id`, or else a deferral (button) or an empty
/// choice list (modal).
pub fn interaction_lookup(kind: u64, request: &InteractionRequest, interactions: &Interactions) -> (r: HttpReply)
    requires
        kind == INTERACTION_BUTTON || kind == INTERACTION_MODAL_SUBMIT,
        !lookup_fails(*request, interactions@),
    ensures
        r.status == 200,
        (request.id is Text && interactions@.contains_key(request.id->Text_0@)) ==> r.body@
            == stored_body(interactions@[request.id->Text_0@].data),
        !(request.id is Text && interactions@.contains_key(request.id->Text_0@)) ==> r.body@ == (
        if kind == INTERACTION_BUTTON {
            deferred_body()
        } else {
            modal_fallback_body()
        }),
{
    match &request.id {
        JsonField::Text(id) => match interactions.get(id) {
            Some(stored) => {
                return match &stored.data {
                    JsonField::Object(text) => text_reply(200, text.as_str()),
                    _ => text_reply(200, "null"),
                };
            },
            None => {},
        },
        _ => {},
    }
    if kind == INTERACTION_BUTTON {
        text_reply(200, "{\"type\":5}")
    } else {
        text_reply(200, "{\"components\":[{\"components\":[{\"choices\":[]}],\"type\":1}],\"type\":5}")
    }
}

} // verus!
