[package]
name = "egui_wgpu"
version = "0.1.0"
edition = "2021"
publish = false

[dependencies]
serde = "=1.0.229"
serde_json = "=1.0.151"
chrono = "=0.4.45"
webbrowser = "=0.5.5"
clipboard = "=0.5.0"
egui = { version = "=0.1.4", features = ["serde", "serde_json"] }
wgpu = "=0.6.2"
winit = "=0.22.2"
futures = "=0.3.34"
