[package]
name = "rezis"
version = "0.1.0"
edition = "2021"
publish = false

[dependencies]
anyhow = "1"
axum = "0.8"
clap = { version = "4", features = ["derive"] }
dotenvy = "0.15"
http = "1"
serde = { version = "1", features = ["derive"] }
serde_json = "1"
thiserror = "2"
tokio = { version = "1", features = ["net", "rt-multi-thread", "macros"] }
tower-http = { version = "0.6", features = ["trace", "cors"] }
tracing-subscriber = { version = "0.3", features = ["fmt", "env-filter"] }
validator = { version = "0.20", features = ["derive"] }
