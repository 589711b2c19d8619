[package]
name = "chat_server"
version = "0.1.0"
edition = "2021"
publish = false

[dependencies]
anyhow = "1"
bcrypt = "0.15"
dashmap = "6"
env_logger = "0.11"
futures = "0.3"
futures-util = { version = "0.3", features = ["sink"] }
log = "0.4"
rand = "0.8"
serde = { version = "1", features = ["derive"] }
serde_json = "1"
tokio = { version = "1", features = ["full"] }
tokio-stream = "0.1"
tokio-tungstenite = "0.24"
uuid = { version = "1", features = ["v4", "serde"] }
