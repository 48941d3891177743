[package]
name = "solaudit"
version = "0.1.0"
edition = "2021"
publish = false

[dependencies]
anyhow = "*"
base64 = "*"
clap = { version = "*", features = ["derive"] }
serde = { version = "*", features = ["derive"] }
serde_json = "*"
solana-sdk = "*"
tokio = { version = "*", features = ["rt-multi-thread", "macros", "time"] }
