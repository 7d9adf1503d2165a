[package]
name = "backend"
version = "0.1.0"
edition = "2021"
publish = false

[dependencies]
serde_json = "=1.0.154"
serde = { version = "=1.0.229", features = ["derive"] }
anyhow = "=1.0.104"
tokio = { version = "=1.54.1", features = ["full"] }
tokio-tungstenite = "=0.30.0"
futures-util = "=0.3.34"
webrtc = "=0.14.0"
audiopus = "=0.2.0"
yamabiko-whisper = "=0.2.3"
