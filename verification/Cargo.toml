[package]
name = "forceit"
version = "0.1.0"
edition = "2021"

[dependencies]
cgmath = "0.18"
env_logger = "0.11"
pollster = "0.3"
rand = "0.8"
tokio = { version = "1", features = ["macros", "rt-multi-thread"] }
winit = "0.30"
