[package]
name = "f11esync"
version = "0.1.0"
edition = "2021"
publish = false

[dependencies]
anyhow = "*"
axum = "=0.8.9"
base64 = "=0.23.1"
clap = { version = "=4.6.7", features = ["derive"] }
notify = "=8.2.0"
regex = "=1.13.1"
serde = { version = "*", features = ["derive"] }
serde_json = "*"
serde_yaml = "=0.9.34"
socketioxide = { version = "=0.18.7", features = ["state"] }
tokio = { version = "=1.53.2", features = ["full"] }
tower-http = { version = "*", features = ["cors"] }
tracing = "*"
tracing-subscriber = { version = "*", features = ["env-filter"] }
walkdir = "=2.5.0"
