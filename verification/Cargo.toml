[package]
name = "cached_provider"
version = "0.1.0"
edition = "2021"
publish = false

[dependencies]
alloy-rpc-types = "*"
anyhow = "1"
ethers-core = "2.0"
serde = { version = "1", features = ["derive"] }
serde_json = "1"
