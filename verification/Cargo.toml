[package]
name = "wgpu_stage"
version = "0.1.0"
edition = "2021"
publish = false

[dependencies]
wgpu = { version = "*", features = ["vulkan", "gles"] }
pollster = "*"
