[package]
name = "httpinteraction"
version = "0.1.0"
edition = "2021"
publish = false

[dependencies]
base64 = "0.13"
crossbeam = "0.8"
dotenv = "0.15"
ed25519-dalek = "1"
flate2 = "1"
futures = "0.3"
hex = "0.4"
rand = "0.7"
rustc-serialize = "0.3"
serde = { version = "1", features = ["derive"] }
serde_json = "1"
tokio = { version = "1", features = ["full"] }
tokio-stream = "0.1"
tracing = "0.1"
tracing-subscriber = "0.3"
warp = "0.3"
