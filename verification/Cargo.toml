[package]
name = "berlin_clock"
version = "0.1.0"
edition = "2021"
publish = false

[dependencies]
chrono = "*"
log = "*"
env_logger = "*"
sdl2 = { version = "*", features = ["image"] }
