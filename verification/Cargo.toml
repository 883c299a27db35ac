[package]
name = "scene_core"
version = "0.1.0"
edition = "2021"
publish = false

[dependencies]
anyhow = "1"
bytemuck = { version = "1", features = ["derive"] }
ddsfile = "0.5"
futures-lite = "2"
image = "0.25"
rapier3d = "0.23"
serde = { version = "1", features = ["derive"] }
serde_yaml = "0.9"
tobj = { version = "4", features = ["async"] }
ulid = "1"
wgpu = "24"
winit = "0.30"
