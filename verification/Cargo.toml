[package]
name = "fps_overlay"
version = "0.1.0"
edition = "2021"
publish = false

[dependencies]
bevy = { version = "0.10", default-features = false }
bevy_egui = { version = "0.20", default-features = false, features = ["default_fonts"] }
