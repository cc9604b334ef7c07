use crate::routes::websocket::commands::handler::CommandOutcome;
use crate::routes::websocket::messages::gateway::{resume, resume_message};
use crate::routes::websocket::structures::client::{ClientBot, Clients, GatewayCommand, JsonField};
use vstd::prelude::*;

verus! {

/// Whether a resume stops on malformed data: the session id is not text.
pub open spec fn resume_gateway_fails(data: GatewayCommand, shard_in: usize) -> bool {
    shard_in == 0 && match data.d {
        Some(p) => p.flags.present() && p.session_id.present() && !(p.session_id is Text),
        None => false,
    }
}

/// The effect of a resume: from the master shard, with `d.flags` and
/// `d.session_id`, a registered bot whose session matches is told
/// `GATEWAY_RESUME`; in every other case nothing is sent.
pub open spec fn resume_gateway_post<T>(
    data: GatewayCommand,
    clients: Map<Seq<char>, ClientBot<T>>,
    id: Seq<char>,
    d: (String, usize, usize, String),
    r: CommandOutcome,
) -> bool {
    match data.d {
        Some(p) => if d.1 == 0 && p.flags.present() && p.session_id.present() && clients.contains_key(id)
            && clients[id].ws.session_id@ == p.session_id->Text_0@ {
            r matches CommandOutcome::Send(m) && m@ == resume_message(
                d.1 as nat,
                d.2 as nat,
                clients[id].application_bot.id@,
            )
        } else {
            r is Nothing
        },
        None => r is Nothing,
    }
}

/// Resumes the session of bot `id`; `d` holds the connection's key list, shard
/// index, shard count and secret.
pub fn resume_gateway<T>(data: GatewayCommand, clients: &Clients<T>, id: &String, d: (String, usize, usize, String)) -> (r: CommandOutcome)
    requires
        !resume_gateway_fails(data, d.1),
    ensures
        resume_gateway_post(data, clients@, id@, d, r),
{
    let (_pub_key, shard_in, shard_total, _secret_key) = d;
    if shard_in != 0 {
        return CommandOutcome::Nothing;
    }
    let payload = match data.d {
        Some(p) => p,
        None => {
            return CommandOutcome::Nothing;
        },
    };
    if !payload.flags.is_present() || !payload.session_id.is_present() {
        return CommandOutcome::Nothing;
    }
    let session_id = match payload.session_id {
        JsonField::Text(s) => s,
        _ => {
            proof {
                assert(false);
            }
            return CommandOutcome::Nothing;
        },
    };
    match clients.get(id) {
        Some(client) => {
            if client.ws.session_id != session_id {
                return CommandOutcome::Nothing;
            }
            CommandOutcome::Send(resume(shard_in, shard_total, client.application_bot.id.as_str()))
        },
        None => CommandOutcome::Nothing,
    }
}

} // verus!
