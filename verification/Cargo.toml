[package]
name = "loopback_oauth"
version = "0.1.0"
edition = "2021"
publish = false

[dependencies]
url = "=2.5.8"
serde_json = "=1.0.154"
tiny_http = "=0.12.0"
reqwest = "=0.12.28"
