[package]
name = "shader_sandbox"
version = "0.1.0"
edition = "2021"
publish = false

[dependencies]
wgpu = "=30.0.1"
wgpu-types = "=30.0.1"
pollster = "=1.0.1"
winit = "=0.30.13"
parking_lot = "=0.12.5"
hotwatch = "=0.5.0"
nokhwa = { version = "=0.10.11", features = ["input-native"] }
