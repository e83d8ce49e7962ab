[package]
name = "zed_logic"
version = "0.1.0"
edition = "2021"
publish = false

[dependencies]
regex = "=1.13.1"
urlencoding = "=2.1.3"
uuid = { version = "1", features = ["v4"] }
chrono = "0.4"
serde_json = "1"
