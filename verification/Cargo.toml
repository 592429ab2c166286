[package]
name = "osmosis-testing"
version = "0.1.0"
edition = "2021"
publish = false

[dependencies]
base64 = "=0.13.1"
cosmrs = { version = "=0.15.0", features = ["cosmwasm"] }
cosmwasm-std = { version = "=1.5.11", features = ["cosmwasm_1_1", "stargate"] }
prost = "=0.12.6"
serde = { version = "1", features = ["derive"] }
serde_json = "1"
