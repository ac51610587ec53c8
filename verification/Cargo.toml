[package]
name = "surface_clear"
version = "0.1.0"
edition = "2021"
publish = false

[dependencies]
wgpu = "27"
winit = "0.30"
pollster = "0.4"
