[package]
name = "escrow_core"
version = "0.1.0"
edition = "2021"
publish = false

[dependencies]
solana-program = "3"
solana-pubkey = { version = "3", features = ["curve25519"] }
spl-token = { version = "9", features = ["no-entrypoint"] }
