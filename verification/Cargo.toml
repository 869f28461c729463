[package]
name = "gfx_toybox"
version = "0.1.0"
edition = "2021"
publish = false

[dependencies]
wgpu = { version = "22", default-features = false }
log = "0.4"
env_logger = { version = "0.11", default-features = false }
pollster = "0.3"
