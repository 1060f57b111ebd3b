[package]
name = "timer_provider"
version = "0.1.0"
edition = "2021"
publish = false

[dependencies]
crossbeam-channel = "*"
futures = { version = "0.3", features = ["compat"] }
tokio-executor = "0.1"
tokio-timer = "0.2"
