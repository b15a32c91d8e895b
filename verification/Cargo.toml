[package]
name = "minimal_node"
version = "0.1.0"
edition = "2021"
publish = false

[dependencies]
futures = "0.3"
futures-timer = "3"
serde_json = "1"
