[package]
name = "hdesk_platform"
version = "0.1.0"
edition = "2021"
publish = false

[dependencies]
url = "2"
reqwest = { version = "0.12", default-features = false, features = ["blocking"] }
serde_json = "1"
lazy_static = "1"
