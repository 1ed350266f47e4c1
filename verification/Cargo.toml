[package]
name = "clearframe"
version = "0.1.0"
edition = "2021"
publish = false

[dependencies]
wgpu = { version = "25", features = ["vulkan"] }
wgpu-hal = { version = "25", features = ["vulkan"] }
winit = "0.30"
pollster = "0.4"
anyhow = "1"
pretty_env_logger = "0.5"
