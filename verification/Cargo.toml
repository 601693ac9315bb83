[package]
name = "apub_delivery"
version = "0.1.0"
edition = "2021"
publish = false

[dependencies]
base64 = "=0.23.1"
rsa = { version = "=0.9.10", features = ["sha2"] }
uuid = { version = "=1.27.0", features = ["v4"] }
url = "=2.5.8"
serde = { version = "=1.0.229", features = ["derive"] }
serde_json = "=1.0.151"
awc = "=3.8.2"

[dev-dependencies]
rand = "=0.8.5"
