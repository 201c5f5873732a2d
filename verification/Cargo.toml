[package]
name = "grater"
version = "0.1.0"
edition = "2021"
publish = false

[dependencies]
rand = "0.8"
winit = { version = "0.28", default-features = false, features = ["x11"] }
