[package]
name = "skia_desktop_rs"
version = "0.1.0"
edition = "2021"
publish = false

[dependencies]
winit = { version = "0.29", features = ["rwh_05"] }
glutin = "0.31"
glutin-winit = "0.4"
raw-window-handle = "0.5"
gl = "0.14"
skia-safe = { version = "*", features = ["gl"] }
