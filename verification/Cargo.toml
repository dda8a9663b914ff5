[package]
name = "secret_music_bot"
version = "0.1.0"
edition = "2021"
publish = false

[dependencies]
anyhow = "1"
base64 = "0.21"
chrono = "0.4"
cipher = { version = "0.4", features = ["alloc", "block-padding"] }
dashmap = "5"
des = "0.8"
dotenv = "0.15"
ecb = { version = "0.1", features = ["alloc"] }
env_logger = "0.11"
ferogram = "*"
futures = "0.3"
grammers-tl-types = "*"
log = "0.4"
mongodb = "2"
ntgcalls = "*"
reqwest = "0.11"
serde_json = "1"
tokio = { version = "1", features = ["full"] }
tokio-util = "0.7"
urlencoding = "2"
