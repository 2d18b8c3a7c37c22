[package]
name = "token_guard"
version = "0.1.0"
edition = "2021"
publish = false

[dependencies]
solana-program = "=1.18.26"
spl-token = { version = "=3.5.0", features = ["no-entrypoint"] }
solana-gateway = { version = "=0.6.0", features = ["no-entrypoint"] }
mpl-token-metadata = "=5.1.1"
