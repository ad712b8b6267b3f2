[package]
name = "gilgamesh"
version = "0.1.0"
edition = "2021"
publish = false

[dependencies]
bytemuck = { version = "1", features = ["derive"] }
cfg-if = "1"
cgmath = "0.18"
env_logger = "0.10"
hexasphere = "*"
image = { version = "0.24", default-features = false, features = ["png", "jpeg"] }
load_file = "1"
log = "0.4"
pollster = "0.3"
wgpu = "0.16"
winit = "0.28"
