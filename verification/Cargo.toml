[package]
name = "particle_sim"
version = "0.1.0"
edition = "2021"
publish = false

[dependencies]
wgpu = "*"
winit = "0.30"
pollster = "*"
glam = { version = "*", features = ["bytemuck"] }
bytemuck = { version = "1", features = ["derive"] }
