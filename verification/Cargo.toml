[package]
name = "ics_extract"
version = "0.1.0"
edition = "2021"
publish = false

[dependencies]
url = "*"
base64 = "*"
jpeg-decoder = "*"
icalendar = "*"
chrono = "*"
axum = { version = "*", features = ["multipart"] }
tokio = { version = "*", features = ["rt-multi-thread", "macros", "net", "sync"] }
reqwest = { version = "*", default-features = false, features = ["rustls-tls"] }
openai-api-rs = "*"
serde = { version = "*", features = ["derive"] }
env_logger = "*"
log = "*"
