[package]
name = "headway"
version = "0.1.0"
edition = "2021"
publish = false

[dependencies]
uuid = { version = "*", features = ["v4"] }
pmtiles = { version = "*", features = ["http-async", "mmap-async-tokio"] }
tokio = { version = "*", features = ["full"] }
axum = "*"
reqwest = { version = "*", default-features = false }
log = "*"
env_logger = "*"
bytes = "*"
