[package]
name = "femtovg_wgpu"
version = "0.1.0"
edition = "2021"
publish = false

[dependencies]
wgpu = "0.8"
raw-window-handle = "0.3"
rgb = "0.8"
imgref = "1"
