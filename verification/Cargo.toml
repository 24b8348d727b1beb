[package]
name = "ark"
version = "0.1.0"
edition = "2021"
publish = false

[dependencies]
anyhow = "1"
log = "0.4"
serde_json = "1"
tempfile = "3"
uuid = { version = "1", features = ["v4"] }
zed_extension_api = "*"
