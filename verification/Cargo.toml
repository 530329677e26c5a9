[package]
name = "canvas_runtime"
version = "0.1.0"
edition = "2021"
publish = false

[dependencies]
log = "*"
wgpu = "=25.0.2"
wgpu_canvas = "=5.0.8"
