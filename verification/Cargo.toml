[package]
name = "agent_conn"
version = "0.1.0"
edition = "2021"
publish = false

[dependencies]
tokio = { version = "1", features = ["rt", "sync", "time", "macros"] }
tracing = "0.1"
