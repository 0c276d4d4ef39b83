[package]
name = "mangogeneration"
version = "0.1.0"
edition = "2021"
publish = false

[dependencies]
mlua = { version = "0.10", features = ["lua54", "vendored"] }
serde_json = "1"
which = "7"
libloading = "0.8"
log = "0.4"
env_logger = "0.11"
eframe = { version = "0.31", default-features = false, features = ["glow", "default_fonts", "x11"] }
rfd = { version = "0.15", default-features = false, features = ["gtk3"] }
