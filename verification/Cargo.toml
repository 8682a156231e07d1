[package]
name = "synthetic_consciousness"
version = "0.1.0"
edition = "2021"
publish = false

[dependencies]
chrono = { version = "0.4", default-features = false, features = ["clock"] }
eframe = { version = "0.29", default-features = false, features = ["default_fonts", "glow", "x11"] }
egui = { version = "0.29", default-features = false }
egui_plot = { version = "0.29", default-features = false }
rand = "0.8"
serde = { version = "1", features = ["derive"] }
toml = "0.8"
