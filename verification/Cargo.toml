[package]
name = "solana_anchor"
version = "0.1.0"
edition = "2021"
publish = false

[dependencies]
anchor-lang = "0.24.2"
borsh = "0.9"
metaplex-token-metadata = { version = "0.0.1", features = ["no-entrypoint"] }
spl-token = { version = "3.2", features = ["no-entrypoint"] }
