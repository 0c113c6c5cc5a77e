[package]
name = "chip8"
version = "0.1.0"
edition = "2021"
publish = false

[dependencies]
winit = { version = "0.30", default-features = false, features = ["rwh_06", "x11"] }
rodio = { version = "0.20", default-features = false }
cpal = "0.15"
env_logger = { version = "0.11", default-features = false }
log = "0.4"
