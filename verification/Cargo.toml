[package]
name = "vape"
version = "0.1.0"
edition = "2021"
publish = false

[dependencies]
eframe = { version = "0.21", default-features = false, features = ["glow", "default_fonts"] }
egui_extras = { version = "0.21", default-features = false, features = ["image"] }
image = { version = "0.24", default-features = false, features = ["png"] }
