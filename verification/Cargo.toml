[package]
name = "mx_player"
version = "0.1.0"
edition = "2021"
publish = false

[dependencies]
chrono = { version = "0.4", features = ["serde"] }
csv = "1"
serde = { version = "1", features = ["derive"] }
serde_json = "1"
anyhow = "1"
log = "0.4"
env_logger = "0.10"
ureq = "2"
libmpv = "2"
egui = "0.24"
eframe = { version = "0.24", default-features = false, features = ["default_fonts", "glow", "x11"] }
raw-window-handle = "0.5"
winapi = { version = "0.3", features = ["winuser", "libloaderapi", "windef"] }
