[package]
name = "anomaly_launcher"
version = "0.1.0"
edition = "2021"
publish = false

[dependencies]
anyhow = "1"
eframe = { version = "0.31", default-features = false, features = ["default_fonts", "glow", "wayland"] }
image = { version = "0.25", default-features = false, features = ["ico"] }
rfd = "0.15"
toml = "0.8"
