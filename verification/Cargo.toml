[package]
name = "manifest_worker"
version = "0.1.0"
edition = "2021"
publish = false

[dependencies]
yaserde = "=0.7.1"
serde = { version = "1", features = ["derive"] }
serde_json = "1"
schemars = "0.8"
mcai_worker_sdk = "=0.11.11"
