[package]
name = "async_dropx"
version = "0.1.0"
edition = "2021"
publish = false

[dependencies]
tokio = { version = "1", features = ["rt", "rt-multi-thread", "time", "sync"] }
async-std = { version = "1" }
