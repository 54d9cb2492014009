[package]
name = "warp_horizon"
version = "0.1.0"
edition = "2021"
publish = false

[dependencies]
rand = "=0.4.6"
cgmath = "=0.18.0"
time = "=0.1.45"
image = { version = "=0.24.9", default-features = false, features = ["png"] }
glium = "=0.32.1"
wavefront_obj = "*"
