[package]
name = "lance_bridge"
version = "0.1.0"
edition = "2021"
publish = false

[dependencies]
anyhow = "=1.0.104"
arrow = { version = "=60.0.0", features = ["ffi"] }
futures = "=0.3.34"
tokio = { version = "=1.53.2", features = ["rt-multi-thread"] }
