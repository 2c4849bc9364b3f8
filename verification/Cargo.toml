[package]
name = "wiiland"
version = "0.1.0"
edition = "2021"
publish = false

[dependencies]
crossterm = "0.28"
eframe = { version = "0.33", default-features = false, features = ["default_fonts", "glow", "wayland", "x11"] }
libc = "0.2"
ratatui = "0.29"
serde = { version = "1", features = ["derive"] }
serde_json = "1"
tempfile = "3"
