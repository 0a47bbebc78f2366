[package]
name = "barterup_be"
version = "0.1.0"
edition = "2021"
publish = false

[dependencies]
actix-cors = "0.7"
actix-web = "4"
anyhow = "1"
base64 = "0.22"
chrono = { version = "0.4", features = ["serde"] }
deadpool-postgres = "*"
dotenv = "0.15"
env_logger = "0.11"
futures = "0.3"
log = "0.4"
regex = "1"
reqwest = { version = "0.12", features = ["json"] }
serde = { version = "1", features = ["derive"] }
serde_json = "1"
thiserror = "1"
tokio-postgres = "0.7"
urlencoding = "2"
uuid = { version = "1", features = ["serde", "v4"] }
