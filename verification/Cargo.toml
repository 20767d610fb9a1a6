[package]
name = "shading_pipeline"
version = "0.1.0"
edition = "2021"
publish = false

[dependencies]
bytemuck = "1"
eframe = { version = "0.31", default-features = false, features = ["wgpu", "x11", "default_fonts"] }
egui = "0.31"
egui-wgpu = "0.31"
egui_file = "0.22"
glam = "0.30"
image = { version = "0.25", default-features = false, features = ["png", "jpeg"] }
tobj = "4"
wgpu = "24"

[dev-dependencies]
naga = { version = "24", features = ["wgsl-in"] }
