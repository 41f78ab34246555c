[package]
name = "raymarch_scene"
version = "0.1.0"
edition = "2021"
publish = false

[dependencies]
egui = "0.26"
egui_glium = "0.26"
glium = "0.34"
winit = "0.29"
gl = "0.14"
