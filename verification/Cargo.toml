[package]
name = "paddle_api"
version = "0.1.0"
edition = "2021"
publish = false

[dependencies]
reqwest = { version = "0.12", default-features = false }
serde_json = "1"
url = "2"
