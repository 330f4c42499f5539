[package]
name = "org"
version = "0.1.0"
edition = "2021"
publish = false

[dependencies]
ring = "0.17"
chrono = { version = "0.4", default-features = false, features = ["std"] }
reqwest = { version = "0.11", default-features = false, features = ["json"] }
redis = "0.23"
rocket = "0.5"
csv = "1"
serde = { version = "1", features = ["derive"] }
serde_json = "1"
