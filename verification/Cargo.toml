[package]
name = "monero_adaptor"
version = "0.1.0"
edition = "2021"
publish = false

[dependencies]
curve25519-dalek = "=4.1.3"
tiny-keccak = { version = "=2.0.2", features = ["keccak"] }
monero = "=0.22.0"
