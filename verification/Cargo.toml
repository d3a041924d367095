[package]
name = "coll_vault"
version = "0.1.0"
edition = "2021"
publish = false

[dependencies]
anchor-lang = "=1.2.1"
arrayref = "=0.3.9"
solana-pubkey = { version = "=3.0.0", features = ["curve25519"] }
