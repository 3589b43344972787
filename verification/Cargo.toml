[package]
name = "recording_session"
version = "0.1.0"
edition = "2021"
publish = false

[dependencies]
hyper = { version = "0.14", features = ["full"] }
random-string = "1"
serde_json = "1"
tokio = { version = "1", features = ["full"] }
