[package]
name = "jitstream"
version = "0.1.0"
edition = "2021"
publish = false

[dependencies]
uuid = { version = "=1.27.0", features = ["v4"] }
url = "=2.5.8"
reqwest = { version = "=0.12.28", default-features = false, features = ["stream"] }
tokio = { version = "1", features = ["rt-multi-thread", "macros", "io-util", "sync", "time", "signal", "process"] }
axum = "0.6"
futures = "0.3"
bytes = "1"
anyhow = "1"
log = "0.4"
env_logger = "0.10"
hls_m3u8 = "0.4"
serde = { version = "1", features = ["derive"] }
serde_json = "1"
async-trait = "0.1"
tempfile = "3"
unix-named-pipe = "0.2"
ffmpeg-cli = "0.1"
ffprobe = "0.3"
