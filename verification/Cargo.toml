[package]
name = "tokio-js-set-interval"
version = "1.0.0"
edition = "2021"
publish = false

[dependencies]
tokio = { version = "1", features = ["rt", "time"] }
