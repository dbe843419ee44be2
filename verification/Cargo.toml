[package]
name = "ntfyr"
version = "0.1.0"
edition = "2021"
publish = false

[dependencies]
ksni = "0.3"
tokio = { version = "1", features = ["rt-multi-thread"] }
async-channel = "2"
