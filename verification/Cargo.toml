[package]
name = "render_bridge"
version = "0.1.0"
edition = "2021"
publish = false

[dependencies]
wgpu = "0.16"
winit = { version = "0.28", default-features = false, features = ["x11"] }
pollster = "0.3"
bytemuck = "1"
