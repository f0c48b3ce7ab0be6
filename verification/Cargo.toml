[package]
name = "one_pass"
version = "0.1.0"
edition = "2021"
publish = false

[dependencies]
anyhow = "1"
awaitgroup = "*"
axum = "0.7"
dashmap = "6"
reqwest = { version = "0.12", default-features = false }
serde = { version = "1", features = ["derive"] }
serde_json = "1"
serde_yaml = "0.9"
tokio = { version = "1", features = ["full"] }
tracing = "0.1"
tracing-subscriber = "0.3"
uuid = { version = "1", features = ["v4"] }
