[package]
name = "harpe"
version = "0.1.0"
edition = "2021"
publish = false

[dependencies]
eframe = { version = "*", default-features = false, features = ["glow", "default_fonts", "x11"] }
rfd = "*"
rodio = "*"
serde = { version = "*", features = ["derive"] }
serde_json = "*"
block2 = "*"
objc2 = "*"
objc2-app-kit = "*"
objc2-foundation = "*"
objc2-core-foundation = "*"
