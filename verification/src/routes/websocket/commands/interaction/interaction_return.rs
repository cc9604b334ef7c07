use crate::routes::websocket::commands::handler::CommandOutcome;
use crate::routes::websocket::structures::client::{
    ClientBot, Clients, GatewayCommand, Interaction, Interactions, JsonField,
};
use vstd::prelude::*;

verus! {

/// The effect of a bot returning an interaction: a registered bot's `data` is
/// stored under the interaction's `id`, which must be text, and is to be
/// forgotten later; otherwise nothing happens.
pub open spec fn interaction_return_post<T>(
    data: GatewayCommand,
    clients: Map<Seq<char>, ClientBot<T>>,
    id: Seq<char>,
    before: Map<Seq<char>, Interaction>,
    after: Map<Seq<char>, Interaction>,
    r: CommandOutcome,
) -> bool {
    if clients.contains_key(id) && data.id is Text {
        let key = data.id->Text_0@;
        &&& after == before.insert(key, Interaction { data: data.data })
        &&& r matches CommandOutcome::Expire(k) && k@ == key
    } else {
        after == before && r is Nothing
    }
}

/// Stores what bot `id` returned for an interaction.
pub fn interaction_return<T>(
    data: GatewayCommand,
    clients: &Clients<T>,
    id: &String,
    interactions: &mut Interactions,
) -> (r: CommandOutcome)
    ensures
        interaction_return_post(data, clients@, id@, old(interactions)@, final(interactions)@, r),
{
    if !clients.contains_key(id) {
        return CommandOutcome::Nothing;
    }
    let key = match data.id {
        JsonField::Text(s) => s,
        _ => {
            return CommandOutcome::Nothing;
        },
    };
    let expire = key.clone();
    interactions.insert(key, Interaction { data: data.data });
    CommandOutcome::Expire(expire)
}

/// Forgets the interaction stored under `key`.
pub fn expire_interaction(interactions: &mut Interactions, key: &String)
    ensures
        final(interactions)@ == old(interactions)@.remove(key@),
{
    let _ = interactions.remove(key);
}

} // verus!
