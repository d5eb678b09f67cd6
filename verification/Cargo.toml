[package]
name = "wgpu_vectors"
version = "0.1.0"
edition = "2021"
publish = false

[dependencies]
bytemuck = "*"
glam = "*"
pollster = "*"
wgpu = "*"
winit = "*"
