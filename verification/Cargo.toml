[package]
name = "fsr2"
version = "0.1.0"
edition = "2021"
publish = false

[dependencies]
ash = "*"
glam = "*"
wgpu = "*"
wgpu-core = "*"
