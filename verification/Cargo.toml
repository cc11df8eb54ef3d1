[package]
name = "multi_drive"
version = "0.0.1"
edition = "2021"
publish = false

[dependencies]
actix-web = "4"
bytes = "1"
chrono = { version = "0.4", features = ["serde"] }
dotenv = "0.15"
env_logger = "0.10"
futures = "0.3"
http = "0.2"
http-body = "0.4"
percent-encoding = "2"
pin-project = "1"
reqwest = { version = "0.11", features = ["multipart"] }
rusqlite = { version = "0.29", features = ["chrono"] }
serde = { version = "1", features = ["derive"] }
serde_json = "1"
tokio = { version = "1", features = ["full"] }
tokio-rusqlite = "0.4"
webdav-handler = "0.2"
