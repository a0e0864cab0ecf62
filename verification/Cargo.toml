[package]
name = "phoenix_sdk"
version = "0.1.0"
edition = "2021"
publish = false

[dependencies]
phoenix-types = "=0.1.5"
rand = "=0.10.3"
solana-program = "=1.18.26"
tokio = { version = "=1.53.2", features = ["full"] }
