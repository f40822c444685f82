[package]
name = "wreq_core"
version = "0.1.0"
edition = "2021"
publish = false

[dependencies]
bytes = "=1.12.1"
http = "=1.5.0"
http-body = "1"
http2 = { version = "=0.5.20", features = ["unstable"] }
lru = "=0.19.0"
tokio = { version = "=1.54.1", features = ["rt", "rt-multi-thread", "net"] }
