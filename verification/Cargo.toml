[package]
name = "wicrs_handshake"
version = "0.1.0"
edition = "2021"
publish = false

[dependencies]
wicrs_api = "=0.2.1"
serde = { version = "1", features = ["derive"] }
rand = "0.8"
uuid = "0.8"
futures = "0.3"
ed25519-dalek = { version = "2", features = ["rand_core"] }
sha3 = "0.10"
