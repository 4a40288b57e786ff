[package]
name = "egui_winit_platform"
version = "0.1.0"
edition = "2021"
publish = false

[dependencies]
winit = "=0.29.15"
egui = "=0.24.1"
copypasta = "=0.10.2"
webbrowser = "=0.8.15"
