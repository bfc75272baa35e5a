[package]
name = "voicetext"
version = "0.1.0"
edition = "2021"
publish = false

[dependencies]
webrtc-vad = "=0.4.0"
global-hotkey = "=0.9.0"
http = "=1.5.0"
chrono = "=0.4.45"
uuid = { version = "=1.29.0", features = ["v4"] }
serde = { version = "=1.0.229", features = ["derive"] }
serde_json = "=1.0.154"
tokio = { version = "=1.54.1", features = ["full"] }
dirs = "=5.0.1"
anyhow = "=1.0.104"
thiserror = "=1.0.69"
log = "=0.4.35"
async-trait = "=0.1.92"
futures-util = "=0.3.34"
tokio-tungstenite = { version = "=0.24.0", features = ["rustls-tls-webpki-roots"] }
reqwest = { version = "=0.12.28", default-features = false, features = ["json", "rustls-tls"] }
rustfft = "=6.4.1"
rubato = "0.15"
dotenv = "0.15"
num_cpus = "1"
