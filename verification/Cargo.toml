[package]
name = "event_adapter"
version = "0.1.0"
edition = "2021"
publish = false

[dependencies]
base64 = "0.13"
http = "0.2"
serde = { version = "1.0", features = ["derive"] }
serde_derive = "1.0"
serde_json = "1.0"
