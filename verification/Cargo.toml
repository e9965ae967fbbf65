[package]
name = "rsocket"
version = "0.5.0"
edition = "2021"
publish = false

[dependencies]
bytes = "0.5"
futures = "0.3"
log = "0.4"
tokio = { version = "0.2", features = ["rt-core", "stream", "sync"] }
