[package]
name = "jito_sdk_rust"
version = "0.1.0"
edition = "2021"
publish = false

[dependencies]
anyhow = "1"
bincode = "1"
prost = "0.13"
rand = "0.8"
reqwest = { version = "0.12", default-features = false, features = ["json"] }
serde = "1"
serde_json = "1"
solana-sdk = "*"
tokio = { version = "1", features = ["macros", "rt", "sync", "time"] }
tonic = { version = "0.12", features = ["tls"] }
