[package]
name = "response_processor"
version = "0.1.0"
edition = "2021"
publish = false

[dependencies]
serde_json = "*"
tokio = { version = "*", features = ["rt", "sync", "time", "macros"] }
futures = "*"
async-stream = "*"
bytes = "*"
axum = "*"
reqwest = { version = "*", default-features = false, features = ["stream"] }
log = "*"
uuid = { version = "*", features = ["v4"] }
