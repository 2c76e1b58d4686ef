[package]
name = "session_pipeline"
version = "0.1.0"
edition = "2021"
publish = false

[dependencies]
cookie = "0.18"
uuid = { version = "1", features = ["v4"] }
tokio = { version = "1", features = ["sync", "rt-multi-thread", "time", "macros", "signal"] }
tokio-stream = "0.1"
redis = { version = "*", features = ["tokio-comp", "connection-manager"] }
