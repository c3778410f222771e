[package]
name = "scene_camera"
version = "0.1.0"
edition = "2021"
publish = false

[dependencies]
winit = "0.30"
nalgebra = "*"
bytemuck = { version = "*", features = ["derive"] }
env_logger = "*"
