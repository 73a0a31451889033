[package]
name = "scylla_session"
version = "0.1.0"
edition = "2021"
publish = false

[dependencies]
scylla = "0.7"
tokio = { version = "1", features = ["sync", "time", "rt-multi-thread"] }
