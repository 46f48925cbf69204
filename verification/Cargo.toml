[package]
name = "wager_settlement"
version = "0.1.0"
edition = "2021"
publish = false

[dependencies]
rand = "0.8"
solana-program = "1.18"
