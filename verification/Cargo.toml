[package]
name = "qrlink"
version = "0.1.0"
edition = "2021"
publish = false

[dependencies]
qrcode = "=0.14.1"
image = { version = "=0.25.10", default-features = false, features = ["png", "jpeg"] }
url = "=2.5.8"
uuid = { version = "=1.27.0", features = ["v4"] }
chrono = "=0.4.45"
poem = "*"
poem-openapi = { version = "*", features = ["uuid"] }
tokio = { version = "*", features = ["rt-multi-thread", "macros"] }
serde = { version = "*", features = ["derive"] }
thiserror = "*"
tracing = "*"
tracing-subscriber = "*"
