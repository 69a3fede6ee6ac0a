[package]
name = "phyesthon"
version = "0.1.0"
edition = "2021"
publish = false

[dependencies]
egui = "0.23"
egui_extras = "0.23"
egui_glow = { version = "0.23", features = ["winit"] }
egui_plot = "0.23"
egui-winit = "0.23"
glow = "0.12"
glutin = "0.30"
glutin-winit = "0.3"
raw-window-handle = "0.5"
image = { version = "0.24", default-features = false, features = ["png", "jpeg"] }
itertools = "0.11"
nalgebra = "0.32"
num-traits = "0.2"
rand = "0.8"
rand_distr = "0.4"
struct_iterable = "0.1"
