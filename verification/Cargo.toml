[package]
name = "gpu_reduce"
version = "0.1.0"
edition = "2021"
publish = false

[dependencies]
wgpu = "0.19"
bytemuck = "1"
futures-intrusive = "0.5"
pollster = "0.3"
env_logger = "0.10"
log = "0.4"
