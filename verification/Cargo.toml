[package]
name = "webrtc_camera_server"
version = "0.2.0"
edition = "2021"
publish = false

[dependencies]
anyhow = "1"
axum = { version = "0.7", features = ["ws"] }
dotenvy = "0.15"
futures-util = "0.3"
gstreamer = "0.23"
gstreamer-sdp = "0.23"
gstreamer-webrtc = "0.23"
serde = { version = "1", features = ["derive"] }
serde_json = "1"
sysinfo = "0.32"
tokio = { version = "1", features = ["full"] }
tower-http = { version = "0.6", features = ["fs", "cors"] }
tracing = "0.1"
tracing-appender = "0.2"
tracing-subscriber = { version = "0.3", features = ["env-filter", "json"] }
