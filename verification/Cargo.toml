[package]
name = "spotlight_core"
version = "0.1.0"
edition = "2021"
publish = false

[dependencies]
base64 = "=0.22.1"
png = "=0.17.16"
screenshots = "=0.6.0"
serde = { version = "=1.0.229", features = ["derive"] }
serde_json = "=1.0.154"
reqwest = { version = "=0.12.28", default-features = false, features = ["json", "rustls-tls"] }
window-vibrancy = "=0.6.0"
core-foundation = "=0.10.1"
core-graphics = "=0.24.0"
objc = "=0.2.7"
