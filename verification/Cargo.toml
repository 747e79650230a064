[package]
name = "stonehm"
version = "0.1.0"
edition = "2021"
publish = false

[dependencies]
axum = "0.7"
http = "1"
serde = { version = "1", features = ["derive"] }
serde_json = "1"
serde_yaml = "0.9"
