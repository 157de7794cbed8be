[package]
name = "sketch"
version = "0.1.0"
edition = "2021"
publish = false

[dependencies]
bytemuck = { version = "1", features = ["derive"] }
futures = "0.3"
image = { version = "0.24", default-features = false, features = ["png"] }
rand = "0.8"
wgpu = "0.16"
winit = "0.28"
