[package]
name = "session_store"
version = "0.1.0"
edition = "2021"
publish = false

[dependencies]
memvid-core = "*"
tokio = { version = "*", features = ["sync"] }

[dev-dependencies]
tempfile = "*"
