[package]
name = "rust_cube"
version = "0.1.0"
edition = "2021"
publish = false

[dependencies]
vulkano = "=0.35.2"
ash = "=0.38.0"
bytemuck = "=1.25.2"
winit = "=0.30.13"
glam = "=0.34.2"
anyhow = "=1.0.104"
image = { version = "=0.25.10", default-features = false, features = ["jpeg", "png"] }
