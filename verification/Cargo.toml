[package]
name = "vrr_window"
version = "0.1.0"
edition = "2021"
publish = false

[dependencies]
cursor-icon = "1"
image = { version = "0.25", default-features = false, features = ["png"] }
softbuffer = "0.4"
tracing = "0.1"
tracing-subscriber = "0.3"
winit = "0.30"
