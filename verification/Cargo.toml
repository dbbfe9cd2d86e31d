[package]
name = "stake_intent"
version = "0.1.0"
edition = "2021"
publish = false

[dependencies]
solana-sdk = { version = "=1.3.23", default-features = false, features = ["program", "curve25519-dalek"] }
solana-sdk-macro = "=1.3.23"
solana-sdk-macro-frozen-abi = "=1.3.23"
spl-token = { version = "=2.0.8", default-features = false, features = ["program", "no-entrypoint"] }
