[package]
name = "space_view"
version = "0.1.0"
edition = "2021"
publish = false

[dependencies]
bytemuck = { version = "=1.25.2", features = ["derive"] }
cgmath = "=0.18.0"
console_error_panic_hook = "0.1"
console_log = "1"
easer = "*"
egui = "0.22"
egui-wgpu = "0.22"
env_logger = "0.10"
image = { version = "=0.24.9", default-features = false, features = ["png"] }
instant = "0.1"
log = "0.4"
wasm-bindgen = "0.2"
web-sys = { version = "0.3", features = ["Document", "Element", "Window"] }
wgpu = "0.16"
winit = "0.28"
