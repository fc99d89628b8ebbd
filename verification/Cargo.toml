[package]
name = "stt_core"
version = "0.1.0"
edition = "2021"
publish = false

[dependencies]
anyhow = "1"
async-channel = "2"
clap = { version = "4", features = ["derive"] }
config = { version = "0.14", default-features = false, features = ["toml"] }
cpal = "*"
dirs = "*"
env_logger = "0.11"
futures-util = "0.3"
gtk4 = "*"
gtk4-layer-shell = "*"
indicatif = "0.17"
log = "0.4"
reqwest = { version = "0.12", default-features = false, features = ["stream"] }
ringbuf = "0.3"
serde = { version = "1", features = ["derive"] }
serde_json = "1"
tokio = { version = "1", features = ["full"] }
whisper-rs = "*"
