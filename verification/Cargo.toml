[package]
name = "terrain_mesh"
version = "0.1.0"
edition = "2021"
publish = false

[dependencies]
colorgrad = "=0.6.2"
image = { version = "=0.24.9", default-features = false }
