[package]
name = "wire"
version = "0.1.0"
edition = "2021"
publish = false

[dependencies]
ash = "=0.38.0"
ash-window = "=0.13.0"
bytemuck = { version = "=1.25.2", features = ["derive"] }
num = "=0.4.3"
vk-mem = "=0.5.0"
winit = "=0.30.13"
