[package]
name = "unifi_client"
version = "0.1.0"
edition = "2021"
publish = false

[dependencies]
arc-swap = "1"
http = "1"
once_cell = "1"
reqwest = { version = "0.12", features = ["json", "cookies"] }
secrecy = "0.10"
serde = { version = "1", features = ["derive"] }
serde_json = "1"
thiserror = "2"
tokio = { version = "1", features = ["sync"] }
url = "2"
