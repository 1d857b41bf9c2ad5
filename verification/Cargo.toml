[package]
name = "twitch_alerts"
version = "0.1.0"
edition = "2021"
publish = false

[dependencies]
twitch_api = { version = "=0.8.0", features = ["reqwest", "helix", "eventsub"] }
url = "=2.5.8"
tokio = { version = "=1.54.1", features = ["full"] }
tokio-tungstenite = "=0.30.0"
futures-channel = "=0.3.34"
futures-util = "=0.3.34"
eyre = "=0.6.14"
clap = { version = "=4.6.7", features = ["derive", "env"] }
tracing = "=0.1.44"
tracing-subscriber = "=0.3.23"
maud = "=0.27.0"
axum = "=0.8.9"
chatgpt_rs = "=1.2.3"
reqwest = { version = "=0.13.5", default-features = false }
serde_json = "=1.0.154"
sqlx = { version = "=0.8.6", default-features = false, features = ["sqlite", "runtime-tokio"] }
tower-http = { version = "=0.6.11", features = ["fs"] }
