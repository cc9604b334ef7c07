pub mod bot_interaction;
pub mod connection_state;
pub mod interaction;
