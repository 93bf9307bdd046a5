[package]
name = "ollama_lmstudio_proxy"
version = "0.1.0"
edition = "2021"
publish = false

[dependencies]
bytes = "=1.12.1"
chrono = { version = "=0.4.45", features = ["serde"] }
clap = { version = "=4.6.7", features = ["derive"] }
dirs = "=6.0.0"
fern = "=0.7.1"
futures-util = "=0.3.34"
http-body-util = "=0.1.5"
humantime = "=2.4.0"
log = "=0.4.34"
md5 = "=0.7.0"
moka = { version = "=0.12.16", features = ["future"] }
reqwest = { version = "=0.12.28", default-features = false, features = ["json", "stream"] }
self-replace = "=1.5.0"
serde = { version = "=1.0.229", features = ["derive"] }
serde_json = { version = "=1.0.154", features = ["float_roundtrip"] }
sha2 = "=0.10.9"
tokio = { version = "=1.54.1", features = ["full"] }
tokio-stream = "=0.1.19"
tokio-util = "=0.7.20"
url = "=2.5.8"
warp = { version = "=0.4.3", features = ["server"] }
