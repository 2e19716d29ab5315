[package]
name = "pausa"
version = "0.1.0"
edition = "2021"
publish = false

[dependencies]
uuid = { version = "1", features = ["v4"] }
chrono = "0.4"
rand = "0.8"
sha2 = "0.10"
base64 = "0.22"
url = "2"
serde = { version = "1", features = ["derive"] }
serde_json = "1"
thiserror = "1"
dotenv = "0.15"
iana-time-zone = "0.1"
async-trait = "0.1"
tokio = { version = "1", features = ["sync", "time", "rt", "macros"] }
rusqlite = { version = "0.31", features = ["bundled", "chrono"] }
