[package]
name = "eth_transfer"
version = "0.1.0"
edition = "2021"
publish = false

[dependencies]
ethers = "2.0"
serde_json = "1"
tokio = { version = "1", features = ["macros", "rt-multi-thread"] }
