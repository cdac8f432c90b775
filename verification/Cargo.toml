[package]
name = "nativelink_retry"
version = "0.1.0"
edition = "2021"
publish = false

[dependencies]
bytes = "1"
futures = "0.3"
prometheus-client = "0.22"
rand = "0.8"
tokio = { version = "1", features = ["fs", "io-util", "rt", "sync", "time"] }
tonic = { version = "0.12", default-features = false, features = ["codegen"] }
tracing = "0.1"
