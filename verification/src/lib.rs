pub mod utils;
pub mod encoding;
pub mod keys;
pub mod sign_mod;
pub mod sign;
pub mod cryptography;
pub mod structures;
pub mod registry;
pub mod routes;
pub mod errors;
pub mod laws;
