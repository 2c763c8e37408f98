[package]
name = "narwhal_worker"
version = "0.1.0"
edition = "2021"
publish = false

[dependencies]
async-trait = "0.1"
bytes = "1.2"
futures = "0.3"
multiaddr = "0.13.0"
tokio = { version = "1.20", features = ["sync", "rt", "macros"] }
tokio-stream = "0.1"
tonic = { version = "0.8", default-features = false }
tracing = "0.1"
