[package]
name = "psbt-guard-core"
version = "0.1.0"
edition = "2021"
publish = false

[dependencies]
bitcoin = { version = "0.32", features = ["base64"] }
serde = { version = "1", features = ["derive"] }
serde_json = "1"
toml = "0.8"
thiserror = "1"
clap = { version = "4", features = ["derive"] }
anyhow = "1"
