[package]
name = "dns_setter"
version = "0.1.0"
edition = "2021"
publish = false

[dependencies]
regex = "=1.13.1"
eframe = { version = "=0.33.3", default-features = false, features = ["default_fonts", "glow", "x11"] }
egui = "=0.33.3"
egui_extras = { version = "=0.33.3", default-features = false, features = ["image"] }
env_logger = { version = "=0.11.11", default-features = false }
image = { version = "=0.25.10", default-features = false, features = ["png", "jpeg", "webp"] }
open = "=5.4.5"
ping = "=0.10.0"
sdl2 = { version = "=0.38.0", features = ["image", "ttf"] }
