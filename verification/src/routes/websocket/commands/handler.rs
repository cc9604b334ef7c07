use crate::routes::websocket::commands::client::ping_client::{ping_client, ping_client_post};
use crate::routes::websocket::commands::client::register_client::{
    register_client, register_client_fails, register_client_post_any,
};
use crate::routes::websocket::commands::client::register_shard::{
    register_shard, register_shard_fails, register_shard_post_any,
};
use crate::routes::websocket::commands::interaction::interaction_return::{
    interaction_return, interaction_return_post,
};
use crate::routes::websocket::messages::utils::{
    CLIENT_RETURN_METADATA_FOR_API, PING_CLIENT, REGISTER_CLIENT, REGISTER_SHARDING,
};
use crate::routes::websocket::structures::client::{
    ClientBot, Clients, GatewayCommand, Interaction, Interactions, JsonField,
};
use vstd::prelude::*;

verus! {

/// What the connection has to do after a command.
pub enum CommandOutcome {
    Nothing,
    /// Send this JSON text to the bot.
    Send(Vec<u8>),
    /// Forget the interaction stored under this id once its time in the cache is up.
    Expire(String),
}

/// Whether handling the command would stop on malformed data: a registration
/// whose flags are not an unsigned integer or whose `encode`/`decode` settings
/// are not a boolean, or a shard registration whose key is not text or whose
/// shard id is not an unsigned integer.
pub open spec fn command_fails<T>(
    data: GatewayCommand,
    clients: Map<Seq<char>, ClientBot<T>>,
    id: Seq<char>,
    shard_in: usize,
) -> bool {
    match data.kind {
        JsonField::UInt(n) => (n == REGISTER_CLIENT && register_client_fails(data, shard_in)) || (n
            == REGISTER_SHARDING && register_shard_fails(data, clients, id)),
        _ => false,
    }
}

/// Whether handling `data` would stop on malformed data (see `command_fails`).
pub fn command_is_malformed<T>(data: &GatewayCommand, clients: &Clients<T>, id: &String, shard_in: usize) -> (r: bool)
    ensures
        r == command_fails(*data, clients@, id@, shard_in),
{
    match data.kind {
        JsonField::UInt(n) => {
            if n == REGISTER_CLIENT {
                crate::routes::websocket::commands::client::register_client::register_client_is_malformed(
                    data,
                    shard_in,
                )
            } else if n == REGISTER_SHARDING {
                crate::routes::websocket::commands::client::register_shard::register_shard_is_malformed(
                    data,
                    clients,
                    id,
                )
            } else {
                false
            }
        },
        _ => false,
    }
}

/// The effect of `load_commands`: that of the command handler that the type
/// selects, and nothing for any other type or a missing one.
pub open spec fn load_commands_post<T>(
    data: GatewayCommand,
    tx: T,
    clients_before: Map<Seq<char>, ClientBot<T>>,
    clients_after: Map<Seq<char>, ClientBot<T>>,
    id: Seq<char>,
    interactions_before: Map<Seq<char>, Interaction>,
    interactions_after: Map<Seq<char>, Interaction>,
    d: (String, usize, usize, String),
    r: CommandOutcome,
) -> bool {
    match data.kind {
        JsonField::UInt(n) => if n == REGISTER_CLIENT {
            register_client_post_any(data, tx, clients_before, clients_after, id, d, r)
                && interactions_after == interactions_before
        } else if n == PING_CLIENT {
            ping_client_post(clients_before, id, r) && clients_after == clients_before
                && interactions_after == interactions_before
        } else if n == REGISTER_SHARDING {
            register_shard_post_any(data, clients_before, clients_after, id, r) && interactions_after
                == interactions_before
        } else if n == CLIENT_RETURN_METADATA_FOR_API {
            interaction_return_post(data, clients_before, id, interactions_before, interactions_after, r)
                && clients_after == clients_before
        } else {
            r is Nothing && clients_after == clients_before && interactions_after == interactions_before
        },
        _ => r is Nothing && clients_after == clients_before && interactions_after == interactions_before,
    }
}

/// Runs the command that a bot sent: registration, ping, shard registration or
/// the return of an interaction; any other type, or a missing one, does nothing.
/// `d` holds the key list, shard index, shard count and secret of the connection.
pub fn load_commands<T>(
    data: GatewayCommand,
    tx: T,
    clients: &mut Clients<T>,
    id: &String,
    interactions: &mut Interactions,
    d: (String, usize, usize, String),
) -> (r: CommandOutcome)
    requires
        !command_fails(data, old(clients)@, id@, d.1),
    ensures
        load_commands_post(
            data,
            tx,
            old(clients)@,
            final(clients)@,
            id@,
            old(interactions)@,
            final(interactions)@,
            d,
            r,
        ),
{
    let type_command = match data.kind {
        JsonField::UInt(n) => n,
        _ => {
            return CommandOutcome::Nothing;
        },
    };
    if type_command == REGISTER_CLIENT {
        register_client(data, tx, clients, id, d)
    } else if type_command == PING_CLIENT {
        ping_client(clients, id)
    } else if type_command == REGISTER_SHARDING {
        register_shard(data, clients, id)
    } else if type_command == CLIENT_RETURN_METADATA_FOR_API {
        interaction_return(data, clients, id, interactions)
    } else {
        CommandOutcome::Nothing
    }
}

} // verus!
