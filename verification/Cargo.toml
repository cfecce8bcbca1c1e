[package]
name = "frame_loop"
version = "0.1.0"
edition = "2021"
publish = false

[dependencies]
egui = { version = "=0.22.0", default-features = false }
egui-wgpu = "=0.22.0"
egui-winit = { version = "=0.22.0", default-features = false }
wgpu = { version = "=0.16.3", default-features = false }
winit = { version = "=0.28.7", default-features = false, features = ["x11"] }
pollster = "=0.3.0"
log = "=0.4.34"
