[package]
name = "csv_adapter"
version = "0.1.0"
edition = "2021"
publish = false

[dependencies]
sha2 = "0.10"
secp256k1 = { version = "0.29", features = ["rand-std"] }
ed25519-dalek = { version = "2", features = ["rand_core"] }
hex = "0.4"
serde = { version = "1", features = ["derive"] }
serde_json = "1"
bincode = "1"
tokio = { version = "1", features = ["rt-multi-thread", "macros", "sync", "time"] }
reqwest = { version = "0.12", default-features = false, features = ["json"] }
uuid = { version = "1", features = ["v4"] }
chrono = "0.4"
thiserror = "1"
async-trait = "0.1"

[dev-dependencies]
rand = "0.8"
ciborium = "0.2"
