[package]
name = "textured_polygon"
version = "0.1.0"
edition = "2021"
publish = false

[dependencies]
bytemuck = { version = "=1.25.2", features = ["derive"] }
glam = { version = "=0.25.0", features = ["bytemuck"] }
image = { version = "=0.24.9", default-features = false, features = ["png"] }
log = "=0.4.34"
wgpu = { version = "=0.19.4", default-features = false, features = ["wgsl"] }
winit = { version = "0.30", default-features = false, features = ["rwh_06", "x11"] }
