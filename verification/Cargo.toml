[package]
name = "fingr"
version = "0.1.0"
edition = "2021"
publish = false

[dependencies]
sha-rs = "*"
serde = { version = "*", features = ["derive"] }
serde_json = "*"
tokio = { version = "*", features = ["full"] }
toml = "*"
anyhow = "*"
tracing = "*"
tracing-subscriber = "*"
