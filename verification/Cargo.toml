[package]
name = "shapes_renderer"
version = "0.1.0"
edition = "2021"
publish = false

[dependencies]
bytemuck = { version = "1", features = ["derive"] }
glam = "0.24"
tokio = { version = "1", features = ["macros", "rt-multi-thread"] }
wgpu = "0.16"
winit = "0.28"
