[package]
name = "egui_winit_platform"
version = "0.1.0"
edition = "2021"
publish = false

[dependencies]
egui = "0.27"
winit = "0.29"
copypasta = "0.10"
webbrowser = "1"
