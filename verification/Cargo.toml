[package]
name = "openquest"
version = "0.1.0"
edition = "2021"
publish = false

[dependencies]
sha2 = "0.10"
hex = "0.4"
uuid = { version = "1", features = ["v4"] }
chrono = "0.4"
serde = { version = "1", features = ["derive"] }
serde_json = "1"
bincode = "1"
jsonwebtoken = "9"
actix-web = "4"
actix-cors = "0.7"
mongodb = "3"
futures = "0.3"
futures-util = "0.3"
tokio = { version = "1", features = ["full"] }
dotenv = "0.15"
env_logger = "0.11"
