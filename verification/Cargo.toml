[package]
name = "account_service"
version = "0.1.0"
edition = "2021"
publish = false

[dependencies]
argon2 = "*"
nanoid = "*"
chrono = "*"
rand = "0.8"
tokio = { version = "1", features = ["full"] }
hyper = { version = "0.14", features = ["full"] }
futures = "0.3"
serde = { version = "1", features = ["derive"] }
serde_json = "1"
serde_urlencoded = "*"
dotenv = "*"
