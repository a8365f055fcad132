[package]
name = "ice"
version = "0.1.0"
edition = "2021"
publish = false

[dependencies]
rand = "0.8.5"
tokio = { version = "1", features = ["sync"] }
webrtc-util = "*"
