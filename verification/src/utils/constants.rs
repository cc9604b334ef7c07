use vstd::prelude::*;

verus! {

/// Interaction type that Discord sends to check that the endpoint is alive.
pub const INTERACTION_PING: u64 = 1;

/// Interaction type of an application command.
pub const INTERACTION_COMMAND: u64 = 2;

/// Interaction type of a message component (button).
pub const INTERACTION_BUTTON: u64 = 3;

/// Interaction type of an autocomplete request.
pub const INTERACTION_AUTOCOMPLETE: u64 = 4;

/// Interaction type of a modal submission.
pub const INTERACTION_MODAL_SUBMIT: u64 = 5;

pub const FLAG_INTERACTION_PING: usize = 2;

pub const FLAG_INTERACTION_COMMAND: usize = 4;

pub const FLAG_INTERACTION_BUTTON: usize = 8;

pub const FLAG_INTERACTION_AUTOCOMPLETE: usize = 16;

pub const FLAG_INTERACTION_MODAL_SUBMIT: usize = 32;

/// Compress the data sent to the client.
pub const FLAG_ENCODE_ZLIB: u64 = 1;

/// Decompress the data received from the client.
pub const FLAG_DECODE_ZLIB: u64 = 2;

/// Send the data in binary frames.
pub const FLAG_SEND_BINARY: u64 = 4;

/// Enable shard mode.
pub const FLAG_SHARD_MODE: u64 = 8;

} // verus!
