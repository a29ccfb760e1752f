[package]
name = "korea_investment_api"
version = "0.1.0"
edition = "2021"
publish = false

[dependencies]
aes = "0.8"
base64 = "0.22"
cbc = "0.1"
chrono = "0.4"
chrono-tz = "*"
json = "0.12"
log = "0.4"
reqwest = { version = "0.12", default-features = false, features = ["json"] }
serde = { version = "1", features = ["derive"] }
serde_json = "1"
thiserror = "1"
tokio = { version = "1", features = ["rt-multi-thread", "macros", "sync"] }
websocket = { version = "0.27", default-features = false, features = ["sync"] }
