[package]
name = "wvt"
version = "0.1.0"
edition = "2021"
publish = false

[dependencies]
wgpu = { version = "0.19", default-features = false, features = ["wgsl"] }
glam = { version = "0.24", features = ["bytemuck"] }
bytemuck = "1"
image = { version = "0.24", default-features = false, features = ["png"] }
tobj = "4"
thiserror = "1"
