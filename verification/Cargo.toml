[package]
name = "render_core"
version = "0.1.0"
edition = "2021"
publish = false

[dependencies]
wgpu = "0.13"
winit = "0.27"
cgmath = "0.18"
bytemuck = "1"
