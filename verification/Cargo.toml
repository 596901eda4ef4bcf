[package]
name = "linglide"
version = "0.1.0"
edition = "2021"
publish = false

[dependencies]
axum = { version = "*", features = ["ws"] }
axum-server = { version = "*", features = ["tls-rustls"] }
base64 = "*"
clap = { version = "*", features = ["derive"] }
dirs = "*"
evdev = "*"
futures = "*"
hostname = "*"
image = { version = "*", default-features = false, features = ["png"] }
mdns-sd = "*"
openh264 = "*"
qrcode = "*"
rand = "0.8"
rcgen = "*"
serde = { version = "*", features = ["derive"] }
serde_json = "*"
sha2 = "*"
tokio = { version = "*", features = ["full"] }
uuid = { version = "*", features = ["v4"] }
