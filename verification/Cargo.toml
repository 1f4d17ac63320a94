[package]
name = "clear_frame"
version = "0.1.0"
edition = "2021"
publish = false

[dependencies]
env_logger = "*"
wgpu = "*"
winit = "*"
pollster = "*"
