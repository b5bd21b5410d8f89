[package]
name = "curve_stroke"
version = "0.1.0"
edition = "2021"
publish = false

[dependencies]
geo = "*"
bytemuck = { version = "*", features = ["derive"] }
cgmath = "*"
env_logger = "*"
wgpu = "*"
winit = "*"
