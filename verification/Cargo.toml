[package]
name = "engine"
version = "0.1.0"
edition = "2021"
publish = false

[dependencies]
anyhow = "=1.0.104"
colog = "=1.4.0"
ctrlc = "=3.5.2"
log = "=0.4.34"
raw-window-handle = "=0.5.2"
vulkanalia = { version = "=0.35.0", features = ["libloading"] }
winit = { version = "=0.28.7", default-features = false, features = ["x11"] }
