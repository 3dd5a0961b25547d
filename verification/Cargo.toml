[package]
name = "rust_canvas_prototype"
version = "0.1.0"
edition = "2021"
publish = false

[dependencies]
bytemuck = "=1.25.2"
pollster = "=1.0.1"
wgpu = { version = "=25.0.2", default-features = false, features = ["wgsl", "vulkan"] }
winit = "=0.30.13"
