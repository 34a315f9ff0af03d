[package]
name = "slam"
version = "0.1.0"
edition = "2021"
publish = false

[dependencies]
anchor-lang = { version = "=1.2.2", features = ["init-if-needed"] }
anchor-spl = { version = "=1.2.2", default-features = false, features = ["solana-v3", "token", "associated_token"] }
pyth-sdk = "=0.8.0"
pyth-sdk-solana = "=0.10.6"
