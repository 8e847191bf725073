[package]
name = "position_sync"
version = "0.1.0"
edition = "2021"
publish = false

[dependencies]
uuid = { version = "*", features = ["v4"] }
tokio = { version = "*", features = ["rt-multi-thread", "net", "sync", "macros"] }
tokio-tungstenite = "*"
futures-util = "*"

[dev-dependencies]
serde_json = "*"
