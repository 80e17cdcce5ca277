[package]
name = "lori"
version = "0.1.0"
edition = "2021"
publish = false

[dependencies]
colored = "*"
crossbeam = "*"
chrono = "*"
pollster = "*"
bytemuck = { version = "*", features = ["derive"] }
winit = "*"
wgpu = "*"
rapier2d = "*"
mlua = { version = "*", features = ["lua54", "vendored"] }
