[package]
name = "overlay"
version = "0.1.0"
edition = "2021"
publish = false

[dependencies]
image = { version = "0.24", default-features = false, features = ["png", "jpeg", "gif", "bmp"] }
napi = { version = "2", features = ["napi4"] }
napi-derive = "2"
pixels = "0.13"
winit = { version = "0.28", default-features = false, features = ["x11"] }
