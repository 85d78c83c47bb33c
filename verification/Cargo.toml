[package]
name = "blendizzard"
version = "0.1.0"
edition = "2021"
publish = false

[dependencies]
soroban-fixed-point-math = "=1.5.0"
soroban-sdk = { version = "=25.3.2", features = ["hazmat-address"] }
