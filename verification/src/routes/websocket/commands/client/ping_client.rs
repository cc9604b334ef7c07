use crate::routes::websocket::commands::handler::CommandOutcome;
use crate::routes::websocket::messages::gateway::{ping, ping_message};
use crate::routes::websocket::structures::client::{ClientBot, Clients};
use vstd::prelude::*;

verus! {

/// A registered bot gets the ping answer; anyone else gets nothing.
pub open spec fn ping_client_post<T>(clients: Map<Seq<char>, ClientBot<T>>, id: Seq<char>, r: CommandOutcome) -> bool {
    if clients.contains_key(id) {
        r matches CommandOutcome::Send(m) && m@ == ping_message()
    } else {
        r is Nothing
    }
}

/// Answers a ping of bot `id`, if it is registered.
pub fn ping_client<T>(clients: &Clients<T>, id: &String) -> (r: CommandOutcome)
    ensures
        ping_client_post(clients@, id@, r),
{
    if !clients.contains_key(id) {
        return CommandOutcome::Nothing;
    }
    CommandOutcome::Send(ping())
}

} // verus!
