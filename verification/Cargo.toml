[package]
name = "chat_proxy"
version = "0.1.0"
edition = "2021"
publish = false

[dependencies]
anyhow = "*"
axum = "=0.8.9"
base64 = "=0.23.1"
bytes = "*"
chrono = { version = "=0.4.45", features = ["serde"] }
dotenvy = "*"
futures = "*"
futures-util = "*"
jsonwebtoken = { version = "=11.1.0", features = ["rust_crypto"] }
mongodb = "=3.9.1"
redis = { version = "=1.7.1", features = ["tokio-comp"] }
reqwest = { version = "=0.13.5", features = ["json", "stream"] }
serde = { version = "*", features = ["derive"] }
serde_json = "=1.0.151"
tokio = { version = "=1.53.2", features = ["rt-multi-thread", "macros", "net", "sync", "time"] }
tokio-stream = "*"
tracing = "*"
tracing-subscriber = { version = "*", features = ["env-filter"] }
