[package]
name = "sure"
version = "0.1.0"
edition = "2021"
publish = false

[dependencies]
chrono = { version = "=0.4.45", default-features = false, features = ["alloc"] }
serde = { version = "=1.0.229", features = ["derive"] }
serde_json = "=1.0.154"
anyhow = "=1.0.104"
thiserror = "=2.0.21"
tracing = "=0.1.44"
zen-expression = "=2.1.6"
tokio = { version = "1", features = ["rt", "rt-multi-thread", "macros", "signal", "time", "sync"] }
tokio-util = { version = "0.7", features = ["rt"] }
