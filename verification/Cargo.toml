[package]
name = "surface_bridge"
version = "0.1.0"
edition = "2021"
publish = false

[dependencies]
once_cell = "=0.2.4"
skia-bindings = "=0.29.3"
skia-safe = { version = "=0.29.3", features = ["vulkan"] }
vks = "=0.21.0"
voodoo = "=0.3.1"
