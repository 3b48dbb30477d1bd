[package]
name = "heatwave"
version = "0.1.0"
edition = "2021"
publish = false

[dependencies]
wgpu = { version = "26", default-features = false, features = ["wgsl", "vulkan"] }
winit = { version = "0.29", default-features = false, features = ["rwh_06", "x11"] }
log = "0.4"
env_logger = { version = "0.11", default-features = false }
