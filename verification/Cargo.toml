[package]
name = "gmtool"
version = "0.1.0"
edition = "2021"
publish = false

[dependencies]
base64 = "=0.23.1"
bincode = "=1.3.3"
futures = "=0.3.34"
notify = "=8.2.0"
pretty_env_logger = "=0.5.0"
rand = "=0.10.3"
serde = { version = "1", features = ["derive"] }
serde_json = "1"
tokio = { version = "1", features = ["full"] }
url = "2"
warp = { version = "=0.4.3", features = ["server"] }
warp-sessions = "=1.0.22"
webbrowser = "=1.2.4"
