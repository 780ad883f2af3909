[package]
name = "map_render_state"
version = "0.1.0"
edition = "2021"
publish = false

[dependencies]
bytemuck = "1"
cgmath = "0.18"
wgpu = "0.12"
winit = "0.26"
