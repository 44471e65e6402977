[package]
name = "kittest_wgpu"
version = "0.1.0"
edition = "2021"
publish = false

[dependencies]
egui = "0.30"
egui-wgpu = "0.30"
image = { version = "0.25", default-features = false }
pollster = "0.3"
