[package]
name = "render_window"
version = "0.1.0"
edition = "2021"
publish = false

[dependencies]
wgpu = "0.13"
winit = "0.27"
env_logger = "0.9"
log = "0.4"
