[package]
name = "tetris"
version = "0.1.0"
edition = "2021"
publish = false

[dependencies]
bytemuck = { version = "=1.25.2", features = ["derive"] }
env_logger = "=0.9.3"
glam = { version = "=0.22.0", features = ["bytemuck", "scalar-math"] }
pollster = "=0.2.5"
rand = "=0.8.8"
wgpu = "=0.14.2"
wgpu_glyph = "=0.18.0"
winit = "=0.27.5"
