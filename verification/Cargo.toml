[package]
name = "miniplot"
version = "0.1.0"
edition = "2021"
publish = false

[dependencies]
nalgebra = { version = "0.33", default-features = false, features = ["std"] }
egui = "0.31"
egui_plot = "0.32"
eframe = { version = "0.31", default-features = false, features = ["default_fonts", "glow", "x11"] }
