[package]
name = "rust_llm_logger"
version = "0.1.0"
edition = "2021"
publish = false

[dependencies]
serde_json = "*"
serde = { version = "*", features = ["derive"] }
bytes = "*"
axum = "*"
tokio = { version = "*", features = ["full"] }
tokio-stream = "*"
hyper = { version = "*", features = ["full"] }
hyper-util = { version = "*", features = ["client", "client-legacy", "http1", "tokio"] }
http-body-util = "*"
tower-http = { version = "*", features = ["trace"] }
tracing = "*"
tracing-subscriber = { version = "*", features = ["env-filter"] }
chrono = "*"
