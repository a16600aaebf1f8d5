[package]
name = "ptb_token"
version = "0.1.0"
edition = "2021"
publish = false

[dependencies]
near-sdk = { version = "=5.29.1", features = ["unit-testing", "legacy"] }
near-contract-standards = "=5.29.1"
