[package]
name = "spaghetti_catalog"
version = "0.1.0"
edition = "2021"
publish = false

[dependencies]
base64 = "0.22"
blake3 = { version = "1", default-features = false, features = ["std"] }
serde = { version = "1", features = ["derive"] }
serde_json = "1"
crossbeam-channel = "0.5"
rusqlite = { version = "0.32", features = ["bundled"] }
ts-rs = "10"
