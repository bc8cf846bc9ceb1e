[package]
name = "dwm_cheatsheet"
version = "0.1.0"
edition = "2021"
publish = false

[dependencies]
eframe = { version = "0.29", default-features = false, features = ["default_fonts", "glow", "x11"] }
env_logger = "0.11"
serde = { version = "1", features = ["derive"] }
