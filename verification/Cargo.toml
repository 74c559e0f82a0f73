[package]
name = "x402-chain-eip155"
version = "0.1.0"
edition = "2021"
publish = false

[dependencies]
alloy-primitives = "1"
alloy-consensus = { version = "1", default-features = false }
alloy-provider = { version = "1", default-features = false }
alloy-sol-types = "1"
async-trait = "0.1"
serde = { version = "1", features = ["derive"] }
serde_json = "1"
