[package]
name = "handy"
version = "0.1.0"
edition = "2021"
publish = false

[dependencies]
chrono = "=0.4.45"
serde = { version = "=1.0.229", features = ["derive"] }
serde_json = { version = "=1.0.154", features = ["preserve_order"] }
urlencoding = "=2.1.3"
regex = "=1.13.1"
url = "=2.5.8"
eframe = { version = "0.32", default-features = false, features = ["default_fonts", "glow", "x11"] }
egui_inbox = "0.9"
egui_json_tree = "0.13"
ehttp = "=0.7.2"
