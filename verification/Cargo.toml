[package]
name = "flashlight_overlay"
version = "0.1.0"
edition = "2021"
publish = false

[dependencies]
bytemuck = { version = "1", features = ["derive"] }
cgmath = "0.18"
wgpu = "24"
winit = "0.29"
x11 = "2"
