[package]
name = "observability"
version = "0.1.0"
edition = "2021"
publish = false

[dependencies]
chrono = { version = "=0.4.45", features = ["serde"] }
metrics = "=0.24.6"
serde = { version = "=1.0.229", features = ["derive"] }
serde_json = "=1.0.151"
tokio = { version = "=1.53.2", features = ["sync", "rt", "rt-multi-thread", "macros"] }
tracing = "=0.1.44"
uuid = { version = "=1.27.0", features = ["v4", "serde"] }
