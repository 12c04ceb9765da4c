[package]
name = "webrtc_http"
version = "0.1.0"
edition = "2021"
publish = false

[dependencies]
axum = { version = "0.8", default-features = false, features = ["tokio", "http1"] }
bytes = "1.10"
dashmap = "6"
rand = "0.9"
tokio = { version = "1", features = ["io-util", "rt-multi-thread", "sync", "time", "macros"] }
webrtc = "0.12"
