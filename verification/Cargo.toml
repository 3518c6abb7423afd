[package]
name = "wallet_shell"
version = "0.1.0"
edition = "2021"
publish = false

[dependencies]
shellexpand = "3.1.0"
solana-sdk = "1.17.0"
