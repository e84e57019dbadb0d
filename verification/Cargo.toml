[package]
name = "dock_badge"
version = "0.1.0"
edition = "2021"
publish = false

[dependencies]
env_logger = { version = "=0.11.11", default-features = false, features = ["humantime"] }
log = "=0.4.34"
tauri = { version = "=2.12.5", default-features = false, features = ["wry"] }
