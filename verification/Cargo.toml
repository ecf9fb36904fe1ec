[package]
name = "recorder"
version = "0.1.0"
edition = "2021"
publish = false

[dependencies]
md5 = "=0.8.1"
url = "=2.5.8"
regex = "=1.13.1"
chrono = "=0.4.45"
base64 = "=0.23.1"
urlencoding = "=2.1.3"
fastrand = "=2.5.0"
rand = "=0.10.3"
serde = { version = "=1.0.229", features = ["derive"] }
serde_json = "=1.0.154"
m3u8-rs = "=6.0.1"
uuid = { version = "=1.29.0", features = ["v4"] }
pct-str = "*"
sanitize-filename = "*"
