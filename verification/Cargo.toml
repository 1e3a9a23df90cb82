[package]
name = "ccl_view"
version = "0.1.0"
edition = "2021"
publish = false

[dependencies]
rand = "=0.9.5"
bytemuck = { version = "=1.25.2", features = ["derive"] }
anyhow = "=1.0.104"
log = "=0.4.35"
env_logger = "=0.11.11"
pollster = "=0.4.0"
tokio = { version = "=1.54.1", features = ["full"] }
wgpu = "=28.0.0"
winit = "=0.30.13"
roslibrust = { version = "=0.26.0", features = ["rosbridge", "codegen"] }
