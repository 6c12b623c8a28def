[package]
name = "shader_quad"
version = "0.1.0"
edition = "2021"
publish = false

[dependencies]
bytemuck = "1"
twox-hash = { version = "1.6", default-features = false }
wgpu = "0.14"
