pub mod commands;
pub mod messages;
pub mod structures;
pub mod websocket_server;
