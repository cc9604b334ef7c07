pub mod gateway;
pub mod utils;
