[package]
name = "kaduceus"
version = "0.1.0"
edition = "2021"
publish = false

[dependencies]
cxx = "1"
futures = "0.3"
tokio = { version = "1", features = ["rt", "rt-multi-thread"] }
tokio-util = { version = "0.7", features = ["compat"] }
tracing = "0.1"
