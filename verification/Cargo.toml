[package]
name = "cockpit"
version = "0.1.0"
edition = "2021"
publish = false

[dependencies]
bytemuck = { version = "1", features = ["derive"] }
cgmath = "0.18"
sdl2 = "*"
wgpu = "*"
