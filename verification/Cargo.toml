[package]
name = "dragonglass"
version = "0.1.0"
edition = "2021"
publish = false

[dependencies]
anyhow = "1"
image = "0.24"
pollster = "0.2"
raw-window-handle = "0.4"
wgpu = "0.12"
winit = "0.26"
