[package]
name = "rusticity"
version = "0.1.0"
edition = "2021"
publish = false

[dependencies]
chrono = "=0.4.45"
urlencoding = "=2.1.3"
serde_json = "=1.0.154"
percent-encoding = "2"
