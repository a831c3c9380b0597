[package]
name = "server"
version = "0.1.0"
edition = "2021"
publish = false

[dependencies]
chrono = { version = "0.4", features = ["serde"] }
dgraph = "*"
env_logger = "0.7"
log = "0.4"
rand = "0.7"
serde = { version = "1", features = ["derive"] }
serde_json = "1"
tungstenite = "0.11"
uuid = { version = "0.8", features = ["v4"] }
