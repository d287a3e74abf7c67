[package]
name = "phoenix_amm"
version = "0.1.0"
edition = "2021"
publish = false

[dependencies]
rust_decimal = "=1.43.0"
anyhow = "=1.0.104"
bincode = "=1.3.3"
bytemuck = "=1.13.0"
solana-sdk = "=1.14.9"
spl-token = { version = "=3.5.0", features = ["no-entrypoint"] }
phoenix-v1 = { version = "=0.2.4", features = ["no-entrypoint"] }
