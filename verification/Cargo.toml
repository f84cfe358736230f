[package]
name = "divvy_exchange"
version = "0.1.0"
edition = "2021"
publish = false

[dependencies]
spl-token = { version = "=9.0.0", features = ["no-entrypoint"] }
solana-pubkey = "=3.0.0"
solana-instruction = "=3.5.1"
solana-program-error = "=3.0.1"
solana-program-pack = "=3.1.0"
solana-account-info = "=3.1.1"
solana-cpi = "=3.1.0"
