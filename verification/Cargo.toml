[package]
name = "ephemeral_state"
version = "0.1.0"
edition = "2021"
publish = false

[dependencies]
anchor-lang = { version = "=1.2.1", features = ["init-if-needed"] }
ephemeral-rollups-sdk = { version = "=0.17.3", features = ["anchor"] }
session-keys = "=3.1.1"
solana-pubkey = { version = "=3.0.0", features = ["curve25519"] }
