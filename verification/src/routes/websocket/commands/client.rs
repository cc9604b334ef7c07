pub mod ping_client;
pub mod register_client;
pub mod register_shard;
pub mod resume_gateway;
