[package]
name = "pulsecloak_node"
version = "0.1.0"
edition = "2021"
publish = false

[dependencies]
base64 = "=0.13.1"
serde_json = { version = "=1.0.154", features = ["raw_value"] }
