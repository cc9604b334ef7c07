pub mod client;
pub mod handler;
pub mod interaction;
