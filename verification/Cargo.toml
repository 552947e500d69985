[package]
name = "atoll_core"
version = "0.1.0"
edition = "2021"
publish = false

[dependencies]
surrealkv = "=0.9.3"
async-lock = "=3.4.2"
async-dup = "=1.2.4"
bincode = "=1.3.3"
blake3 = { version = "=1.8.7", features = ["serde"] }
bs58 = "=0.5.1"
ed25519-dalek = { version = "=2.2.0", features = ["serde"] }
qrcodegen = "*"
rocket = { version = "=0.5.2", features = ["json"] }
serde = { version = "=1.0.229", features = ["derive"] }
serde_json = "=1.0.154"
thiserror = "=2.0.21"
