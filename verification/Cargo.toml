[package]
name = "avalanche_types"
version = "0.1.0"
edition = "2021"
publish = false

[dependencies]
semver = "1"
tokio = { version = "1", features = ["sync", "rt", "macros"] }
tonic = { version = "*", default-features = false }
chrono = "0.4"
serde = { version = "1", features = ["derive"] }
serde_json = "1"
