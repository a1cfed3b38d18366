[package]
name = "motis_bridge"
version = "0.1.0"
edition = "2021"
publish = false

[dependencies]
serde = { version = "=1.0.229", features = ["derive"] }
serde_json = "=1.0.151"
base64 = "=0.23.1"
flate2 = "=1.1.10"
urlencoding = "=2.1.3"
reqwest = { version = "=0.13.5", default-features = false, features = ["blocking", "json", "query"] }
