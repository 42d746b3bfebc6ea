[package]
name = "holly"
version = "0.1.0"
edition = "2021"
publish = false

[dependencies]
ash = "=0.37.3"
ash-window = "0.12"
raw-window-handle = "=0.5.2"
winit = "=0.28.7"
image = "=0.24.9"
libc = "=0.2.190"
