[package]
name = "gpu_image_compute"
version = "0.1.0"
edition = "2021"
publish = false

[dependencies]
anyhow = "1"
futures = "0.3"
image = { version = "0.24", default-features = false, features = ["png"] }
wgpu = "0.17"
