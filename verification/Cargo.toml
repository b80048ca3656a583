[package]
name = "uptime_sync"
version = "0.1.0"
edition = "2021"
publish = false

[dependencies]
chrono = "=0.4.45"
serde = { version = "=1.0.229", features = ["derive"] }
serde_json = "=1.0.151"
tokio = { version = "=1.53.2", features = ["rt", "rt-multi-thread", "macros", "sync", "time", "net"] }
futures = "=0.3.34"
rust_socketio = { version = "=0.6.0", features = ["async"] }
axum = "=0.8.9"
url = "=2.5.8"
