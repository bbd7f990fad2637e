[package]
name = "health_check"
version = "0.1.0"
edition = "2021"
publish = false

[dependencies]
poem = { version = "1", default-features = false }
hyper = { version = "0.14", features = ["client", "http1", "tcp", "runtime"] }
tokio = { version = "1", features = ["rt", "sync", "time", "macros"] }
