[package]
name = "tedit"
version = "0.1.0"
edition = "2021"
publish = false

[dependencies]
ropey = "=1.6.1"
winit = "=0.30.13"
wgpu = "=28.0.0"
wgpu_glyph = "=0.28.0"
pollster = "=1.0.1"
snafu = "=0.9.2"
env_logger = "=0.11.11"
