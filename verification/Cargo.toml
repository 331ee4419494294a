[package]
name = "simulang-log-viewer"
version = "0.1.0"
edition = "2021"
publish = false

[dependencies]
global-hotkey = "*"
serde = { version = "1", features = ["derive"] }
serde_json = "1"
napi = { version = "*", features = ["napi4"] }
napi-derive = "*"
eframe = { version = "*", default-features = false, features = ["glow", "x11", "default_fonts"] }
objc2 = "*"
objc2-foundation = "*"
objc2-app-kit = "*"
