[package]
name = "lameboy"
version = "0.1.0"
edition = "2021"
publish = false

[dependencies]
clap = { version = "4", features = ["derive"] }
log = "0.4"
simple_logger = "4"
rand = "0.8"
sdl2 = "0.35"
winit = "0.28"
winit_input_helper = "0.14"
imgui = "0.11"
imgui-winit-support = "0.11"
