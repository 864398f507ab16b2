[package]
name = "usbpoll"
version = "0.1.0"
edition = "2021"
publish = false

[dependencies]
rusb = { version = "*", features = ["vendored"] }
log = { version = "*", features = ["kv"] }
env_logger = "*"
parking_lot = "*"
anyhow = "*"
