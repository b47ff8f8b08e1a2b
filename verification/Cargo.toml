[package]
name = "vhook"
version = "0.1.0"
edition = "2021"
publish = false

[dependencies]
bincode = "1"
bs58 = "0.5"
serde = { version = "1", features = ["derive"] }
solana-sdk = "2"
thiserror = "1"
