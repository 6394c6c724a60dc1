[package]
name = "zenith"
version = "0.1.0"
edition = "2021"
publish = false

[dependencies]
anyhow = "=1.0.104"
ash = "=0.38.0"
ash-window = "=0.13.0"
bytemuck = { version = "=1.25.2", features = ["derive"] }
egui = "0.33"
egui-ash-renderer = { version = "=0.11.0", features = ["dynamic-rendering"] }
egui-winit = { version = "0.33", default-features = false }
env_logger = "=0.11.11"
glam = { version = "=0.34.1", features = ["bytemuck"] }
gpu-allocator = { version = "=0.28.0", default-features = false, features = ["std", "vulkan"] }
winit = "=0.30.13"
