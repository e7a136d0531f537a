[package]
name = "vapi"
version = "0.1.0"
edition = "2021"
publish = false

[dependencies]
crossbeam-channel = "0.5"
regex = "1"
serde = { version = "1", features = ["derive"] }
serde_json = "1"
toml = "*"
