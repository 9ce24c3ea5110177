[package]
name = "live_server"
version = "0.1.0"
edition = "2021"
publish = false

[dependencies]
tokio = { version = "*", features = ["sync", "rt", "net", "time", "macros", "fs", "io-util"] }
