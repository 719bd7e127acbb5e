[package]
name = "milestonex"
version = "0.1.0"
edition = "2021"
publish = false

[dependencies]
anyhow = "=1.0.104"
dotenv = "=0.15.0"
serde_json = "=1.0.154"
soroban-sdk = { version = "=29.0.1", features = ["hazmat-address"] }
