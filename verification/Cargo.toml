[package]
name = "chaos_vk"
version = "0.1.0"
edition = "2021"
publish = false

[dependencies]
vulkano = "=0.34.2"
winit = "=0.28.7"
glam = "0.25"
ahash = "=0.8.12"
smallvec = "=1.16.4"
winapi = "=0.3.9"
