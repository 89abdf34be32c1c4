[package]
name = "query_service"
version = "0.1.0"
edition = "2021"
publish = false

[dependencies]
actix-web = { version = "=4.15.0", default-features = false, features = ["macros"] }
actix-cors = "=0.7.2"
chrono = { version = "=0.4.45", features = ["serde"] }
dotenv = "=0.15.0"
env_logger = "=0.11.11"
log = "=0.4.34"
reqwest = { version = "=0.13.5", default-features = false, features = ["json"] }
serde = { version = "=1.0.229", features = ["derive"] }
serde_json = "=1.0.151"
thiserror = "=2.0.21"
