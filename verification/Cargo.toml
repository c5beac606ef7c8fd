[package]
name = "fit_studio"
version = "0.8.1"
edition = "2021"
publish = false

[dependencies]
rand = "0.8"
serde = { version = "1", features = ["derive"] }
egui = "0.33"
eframe = { version = "0.33", default-features = false, features = ["glow", "persistence", "x11"] }
egui_plot = "0.34"
