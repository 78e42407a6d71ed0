[package]
name = "zkvote"
version = "0.1.0"
edition = "2021"
publish = false

[dependencies]
risc0-zkvm = "=3.0.6"
bincode = "=1.3.3"
serde = { version = "=1.0.229", features = ["derive"] }
serde_json = "1"
