[package]
name = "filedrop"
version = "0.5.5"
edition = "2021"
publish = false

[dependencies]
aes-gcm = "=0.10.3"
anyhow = "=1.0.104"
axum = { version = "=0.8.9", features = ["ws"] }
base64 = "=0.22.1"
chrono = "=0.4.45"
clap = { version = "=4.6.7", features = ["derive"] }
crossterm = "=0.28.1"
directories = "=5.0.1"
futures-util = "=0.3.34"
hex = "=0.4.3"
hkdf = "=0.12.4"
hostname = "=0.4.2"
image = { version = "=0.25.10", default-features = false, features = ["png"] }
mdns-sd = "=0.11.5"
notify = "=6.1.1"
p256 = { version = "=0.13.2", features = ["ecdh"] }
qrcode = { version = "=0.14.1", default-features = false }
rand = "=0.8.8"
ratatui = "=0.29.0"
rcgen = { version = "=0.13.2", default-features = false, features = ["pem", "aws_lc_rs"] }
serde = { version = "=1.0.229", features = ["derive"] }
serde_json = "=1.0.154"
sha2 = "=0.10.9"
tokio = { version = "=1.54.1", features = ["full"] }
tokio-tungstenite = "=0.26.2"
toml = "=0.8.23"
tracing = "=0.1.44"
tracing-subscriber = { version = "=0.3.23", features = ["env-filter"] }
uuid = { version = "=1.29.0", features = ["v4"] }
zip = { version = "=2.6.1", default-features = false, features = ["deflate"] }
