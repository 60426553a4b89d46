[package]
name = "yabw"
version = "0.1.0"
edition = "2021"
publish = false

[dependencies]
console = "=0.15.11"
dialoguer = "=0.10.4"
directories = "=5.0.1"
eframe = { version = "=0.27.2", default-features = false, features = ["default_fonts", "glow"] }
rfd = "=0.14.1"
serde = { version = "=1.0.229", features = ["derive"] }
serde_json = "=1.0.154"
