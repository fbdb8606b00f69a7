[package]
name = "atar"
version = "0.1.0"
edition = "2021"
publish = false

[dependencies]
serde_json = "1"
sha2 = "0.10"
signal-hook = "0.3"
