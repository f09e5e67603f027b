[package]
name = "actor_discord"
version = "0.1.0"
edition = "2021"
publish = false

[dependencies]
serde_json = "1"
regex = "1"
url = "2"
serde = { version = "1", features = ["derive"] }
serde_repr = "0.1"
actix = "0.13"
actix-broker = "0.4"
actix-http = "3"
actix-rt = "2"
awc = "3"
tokio = { version = "1", features = ["time", "macros"] }
futures = "0.3"
futures-util = "0.3"
anyhow = "1"
thiserror = "1"
lazy_static = "1"
log = "0.4"
dotenv = "0.15"
env_logger = "0.9"
