pub mod interaction;
pub mod websocket;
