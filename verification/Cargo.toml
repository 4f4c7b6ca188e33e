[package]
name = "vortex"
version = "0.1.0"
edition = "2021"
publish = false

[dependencies]
anyhow = "=1.0.104"
serde_json = { version = "=1.0.154", features = ["preserve_order"] }
tokio = { version = "=1.54.1", features = ["io-std", "io-util", "macros", "rt-multi-thread", "sync"] }
tokio-stream = { version = "=0.1.19", features = ["io-util"] }
tracing = "=0.1.44"
