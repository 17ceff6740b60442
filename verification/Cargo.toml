[package]
name = "teams_auth"
version = "0.1.0"
edition = "2021"
publish = false

[dependencies]
base64 = "0.22"
chrono = "0.4"
clap = { version = "4", features = ["derive", "env"] }
serde_json = "1"
tracing = "0.1"
urlencoding = "2"
