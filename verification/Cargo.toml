[package]
name = "spotify_token"
version = "0.1.0"
edition = "2021"
publish = false

[dependencies]
axum = "0.8"
axum-extra = { version = "0.10", features = ["typed-header"] }
base64 = "0.22"
chromiumoxide = { version = "0.7", default-features = false, features = ["tokio-runtime"] }
chrono = "0.4"
dotenv = "0.15"
futures = "0.3"
headers = "0.4"
serde_json = "1"
tokio = { version = "1", features = ["full"] }
