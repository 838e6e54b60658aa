[package]
name = "egui_vulkano"
version = "0.4.0"
edition = "2021"
publish = false

[dependencies]
egui = "=0.13.1"
epaint = "=0.13.0"
vulkano = "=0.25.0"
vulkano-shaders = "=0.25.0"
thiserror = "=1.0.69"
