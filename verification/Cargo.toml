[package]
name = "notes_api"
version = "0.1.0"
edition = "2021"
publish = false

[dependencies]
bson = { version = "2", features = ["chrono-0_4"] }
chrono = { version = "0.4", features = ["serde"] }
dotenv = "0.15"
futures = "0.3"
mongodb = { version = "2", features = ["bson-chrono-0_4"] }
pretty_env_logger = "0.4"
serde = { version = "1", features = ["derive"] }
thiserror = "1"
tokio = { version = "1", features = ["full"] }
warp = "0.3"
