[package]
name = "tengine"
version = "0.1.0"
edition = "2021"
publish = false

[dependencies]
anyhow = "=1.0.104"
bevy_ecs = "=0.10.1"
bytemuck = { version = "=1.25.2", features = ["derive"] }
nalgebra = "=0.32.6"
wgpu = "0.16"
winit = "=0.28.7"
