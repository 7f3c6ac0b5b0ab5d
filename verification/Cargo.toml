[package]
name = "key_overlay"
version = "0.1.0"
edition = "2021"
publish = false

[dependencies]
crossbeam = "=0.8.5"
crossbeam-queue = "=0.3.14"
serde = { version = "=1.0.229", features = ["derive"] }
serde_json = "=1.0.154"
