[package]
name = "shader_bindings"
version = "0.1.0"
edition = "2021"
publish = false

[dependencies]
bytemuck = "*"
cgmath = "*"
glsl-to-spirv = "*"
wgpu = { version = "*", features = ["glsl"] }
zerocopy = "*"
