[package]
name = "egui_wgpu"
version = "0.1.0"
edition = "2021"
publish = false

[dependencies]
bytemuck = "1"
egui = "0.2"
wgpu = "0.6"
