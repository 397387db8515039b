[package]
name = "texture_canvas"
version = "0.1.0"
edition = "2021"
publish = false

[dependencies]
bytemuck = "=1.25.2"
glam = "=0.34.1"
iced_core = "=0.14.0"
iced_runtime = "0.14"
iced_wgpu = "=0.14.0"
iced_widget = { version = "=0.14.2", features = ["wgpu"] }
