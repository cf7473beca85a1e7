[package]
name = "frame_loop"
version = "0.1.0"
edition = "2021"
publish = false

[dependencies]
futures = "=0.3.34"
wgpu = "=0.17.2"
winit = "=0.28.7"
