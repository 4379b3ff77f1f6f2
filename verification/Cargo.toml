[package]
name = "noise"
version = "0.1.0"
edition = "2021"
publish = false

[dependencies]
rand = "0.8"
tracing = "0.1"
x25519-dalek = { version = "2", features = ["static_secrets"] }

[dev-dependencies]
etherparse = "0.13"
