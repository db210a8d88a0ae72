[package]
name = "pixel_world"
version = "0.1.0"
edition = "2021"
publish = false

[dependencies]
log = "0.4"
pixels = "0.9"
simple-logging = "2"
winit = "0.26"
winit_input_helper = "0.11"
