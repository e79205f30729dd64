[package]
name = "typepaste"
version = "0.1.0"
edition = "2021"
publish = false

[dependencies]
arboard = { version = "=3.7.0", default-features = false }
rand = "=0.8.8"
clap = { version = "=4.6.7", features = ["derive"] }
serde = { version = "=1.0.229", features = ["derive"] }
serde_json = "=1.0.154"
dirs = "=5.0.1"
log = "=0.4.35"
env_logger = "=0.11.11"
global-hotkey = "=0.6.4"
winit = { version = "=0.29.15", default-features = false, features = ["rwh_06", "x11"] }
tray-icon = { version = "0.15", default-features = false }
core-graphics = "=0.23.2"
core-foundation = "=0.9.4"
eframe = { version = "0.28", default-features = false, features = ["glow"] }
