[package]
name = "agent_loop"
version = "0.1.0"
edition = "2021"
publish = false

[dependencies]
base64 = "0.22"
chrono = { version = "0.4", default-features = false, features = ["std", "clock"] }
futures = "0.3"
serde_json = "1"
tokio = { version = "1", features = ["macros", "rt", "signal", "sync", "time"] }
tracing = "0.1"
uuid = { version = "1", features = ["v4"] }
