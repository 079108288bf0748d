[package]
name = "tinywgpu"
version = "0.1.0"
edition = "2021"
publish = false

[dependencies]
env_logger = "0.11"
log = "0.4"
pollster = "0.4"
winit = "0.30"
