[package]
name = "framekit"
version = "0.1.0"
edition = "2021"
publish = false

[dependencies]
wgpu = "=23.0.1"
winit = "=0.29.15"
glam = "*"
bytemuck = { version = "*", features = ["derive"] }
image = { version = "*", default-features = false, features = ["png"] }
log = "*"
color-eyre = "*"
