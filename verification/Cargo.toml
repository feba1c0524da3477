[package]
name = "panium"
version = "0.1.0"
edition = "2021"
publish = false

[dependencies]
gl = "=0.14.0"
sdl2 = "=0.38.0"
smithay-client-toolkit = { version = "0.20", default-features = false }
tempfile = "=3.27.0"
wayland-client = "=0.31.15"
wayland-protocols-wlr = { version = "=0.3.12", features = ["client"] }
