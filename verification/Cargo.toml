[package]
name = "numaflow_reduce"
version = "0.1.0"
edition = "2021"
publish = false

[dependencies]
chrono = "*"
tokio = { version = "*", features = ["sync", "rt", "rt-multi-thread", "time", "macros"] }
tokio-stream = "*"
tonic = "*"
