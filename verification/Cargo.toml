[package]
name = "template_app"
version = "0.1.0"
edition = "2021"
publish = false

[dependencies]
eframe = { version = "=0.31.1", default-features = false, features = ["persistence", "x11"] }
egui = "=0.31.1"
serde = { version = "=1.0.229", features = ["derive"] }
