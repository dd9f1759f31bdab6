[package]
name = "ws_bridge"
version = "0.1.0"
edition = "2021"
publish = false

[dependencies]
crossbeam-channel = "0.5"
tokio = { version = "1", features = ["rt-multi-thread", "macros", "time"] }
tokio-tungstenite = "0.21"
futures-util = { version = "0.3", features = ["sink"] }
futures-channel = "0.3"
