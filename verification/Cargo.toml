[package]
name = "media_api"
version = "0.1.0"
edition = "2021"
publish = false

[dependencies]
actix-cors = "0.6"
actix-web = { version = "4", default-features = false, features = ["macros"] }
bson = "2"
env_logger = "0.10"
futures-util = "0.3"
mongodb = "2"
rand = "0.8"
serde = { version = "1", features = ["derive"] }
uuid = { version = "1", features = ["v4"] }

[dev-dependencies]
validator = "0.16"
