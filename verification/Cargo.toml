[package]
name = "pixel_shapes"
version = "0.1.0"
edition = "2021"
publish = false

[dependencies]
bytemuck = "=1.25.2"
cfg-if = "=1.0.5"
console_error_panic_hook = "=0.1.7"
console_log = "=1.1.0"
env_logger = { version = "=0.10.2", default-features = false }
log = "=0.4.34"
wasm-bindgen = "=0.2.129"
web-sys = { version = "=0.3.106", features = ["Document", "Element", "Window"] }
wgpu = { version = "23", default-features = false, features = ["wgsl"] }
winit = { version = "=0.29.15", default-features = false, features = ["rwh_06", "x11"] }
