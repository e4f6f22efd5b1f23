[package]
name = "demo_core"
version = "0.1.0"
edition = "2021"
publish = false

[dependencies]
eframe = { version = "0.31", default-features = false, features = ["default_fonts", "glow", "x11"] }
egui-macroquad = { version = "0.15", default-features = false }
macroquad = { version = "0.3", default-features = false }
