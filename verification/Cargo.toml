[package]
name = "turn_core"
version = "0.1.0"
edition = "2021"
publish = false

[dependencies]
serde_json = "1"
http = "1"
futures = "0.3"
tokio-util = "0.7"
