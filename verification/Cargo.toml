[package]
name = "trustline_engine"
version = "0.1.0"
edition = "2021"
publish = false

[dependencies]
soroban-sdk = { version = "=27.0.6", features = ["hazmat-address"] }
trustline-sdk = "=0.1.0"

[dev-dependencies]
soroban-sdk = { version = "=27.0.6", features = ["testutils", "hazmat-address"] }
