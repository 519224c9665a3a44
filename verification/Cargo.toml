[package]
name = "pywire_servo"
version = "0.2.0"
edition = "2021"
publish = false

[dependencies]
url = "2"
euclid = "0.22"
raw-window-handle = "0.6"
winit = "0.30"
rustls = "0.23"
objc2-app-kit = "0.3"
objc2-foundation = "0.3"
