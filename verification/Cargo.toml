[package]
name = "source_listener"
version = "0.1.0"
edition = "2021"
publish = false

[dependencies]
libpulse-binding = "*"
clap = { version = "*", features = ["derive"] }
env_logger = "*"
log = "*"
chrono = "*"
