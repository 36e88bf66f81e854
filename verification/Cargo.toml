[package]
name = "ledger_core"
version = "0.1.0"
edition = "2021"
publish = false

[dependencies]
sha2 = "0.10"
hex = "0.4"
base58 = "0.2"
rand = "0.8"
secp256k1 = { version = "0.29", features = ["rand-std"] }
time = "0.3"
serde = { version = "1", features = ["derive"] }
serde_json = "1"
rouille = "3"
reqwest = { version = "0.12", default-features = false, features = ["blocking", "json"] }
rusqlite = { version = "*", features = ["bundled"] }
postgres = "0.19"
r2d2 = "0.8"
r2d2_postgres = "0.18"
jfs = "*"

[dev-dependencies]
bincode = "1.3"
