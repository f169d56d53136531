[package]
name = "aec_bridge"
version = "0.1.0"
edition = "2021"
publish = false

[dependencies]
anyhow = "1"
clap = { version = "4", features = ["derive"] }
cpal = "0.18"
ctrlc = "3"
eframe = { version = "0.36", default-features = false, features = ["default_fonts", "glow", "persistence", "x11"] }
ringbuf = "0.5"
serde = { version = "1", features = ["derive"] }
sonora = "0.2"
tray-icon = { version = "0.24", default-features = false }
wasapi = "0.24"
