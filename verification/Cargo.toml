[package]
name = "prng_visualizer"
version = "0.1.0"
edition = "2021"
publish = false

[dependencies]
crossbeam = "0.8"
parking_lot = "0.12"
bytemuck = { version = "1", features = ["derive"] }
glam = "0.29"
pollster = "0.4"
wgpu = "23"
winit = "0.30"
egui = "0.30"
egui-wgpu = "0.30"
egui-winit = "0.30"
