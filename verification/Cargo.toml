[package]
name = "kick_client"
version = "0.1.0"
edition = "2021"
publish = false

[dependencies]
serde_json = "1"
tokio = { version = "1", features = ["macros", "rt-multi-thread", "net", "sync"] }
tokio-tungstenite = { version = "*", features = ["native-tls"] }
futures-util = "0.3"
