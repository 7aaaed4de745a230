[package]
name = "rect_render"
version = "0.1.0"
edition = "2021"
publish = false

[dependencies]
wgpu = "=0.16.3"
winit = "=0.28.7"
glyphon = "=0.3.0"
bytemuck = { version = "=1.25.2", features = ["derive"] }
env_logger = "=0.10.2"
