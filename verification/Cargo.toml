[package]
name = "track_requests"
version = "0.1.0"
edition = "2021"
publish = false

[dependencies]
serde_bencode = "0.2"
serde_bytes = "0.11"
uuid = { version = "1", features = ["v4", "serde"] }
serde = { version = "1", features = ["derive"] }
serde_json = "1"
thiserror = "1"
async-trait = "0.1"
tracing = "0.1"
actix-rt = "2"
actix-web = { version = "4", default-features = false, features = ["macros"] }
tokio = { version = "1", features = ["fs", "io-util", "time"] }
tokio-util = { version = "0.7", features = ["codec"] }
futures-lite = "1"
async-lock = "2"
base64 = "0.21"
reqwest = { version = "0.11", default-features = false, features = ["json", "cookies", "multipart", "stream", "rustls-tls"] }
scraper = "0.17"
transmission-rpc = "0.4"
audiotags = "0.4"
envy = "0.4"
dotenv = "0.15"
env_logger = "0.10"
