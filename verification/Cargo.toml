[package]
name = "pixel_picker"
version = "0.1.0"
edition = "2021"
publish = false

[dependencies]
arboard = "2"
eframe = "0.17"
egui_extras = "0.17"
scrap = "0.5"
