[package]
name = "rustwave"
version = "0.1.0"
edition = "2021"
publish = false

[dependencies]
dashmap = "6"
futures-util = { version = "0.3", features = ["sink"] }
serde = { version = "1", features = ["derive"] }
serde_json = "1"
thiserror = "*"
tokio = { version = "1", features = ["full"] }
tokio-tungstenite = "*"
tokio-util = "*"
uuid = { version = "1", features = ["v4"] }
