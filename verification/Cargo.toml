[package]
name = "db3_client"
version = "0.1.0"
edition = "2021"
publish = false

[dependencies]
ed25519-dalek = "2"
k256 = { version = "0.13", features = ["ecdsa"] }
sha3 = "0.10"
