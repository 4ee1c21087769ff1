[package]
name = "neutron_sdk"
version = "0.1.0"
edition = "2021"
publish = false

[dependencies]
cosmos-sdk-proto = { version = "*", default-features = false }
cosmwasm-std = "*"
schemars = "0.8"
serde = { version = "1", features = ["derive"] }
speedate = "*"
