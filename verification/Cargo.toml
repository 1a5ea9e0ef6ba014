[package]
name = "minion"
version = "0.1.0"
edition = "2021"
publish = false

[dependencies]
wasmer = "=6.1.0"
tokio = { version = "=1.53.2", features = ["rt-multi-thread", "macros"] }
tokio-tungstenite = "=0.20.1"
futures-util = "=0.3.34"
reqwest = { version = "=0.11.27", default-features = false }
url = "=2.5.8"
