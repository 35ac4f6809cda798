[package]
name = "panel_kit"
version = "0.1.0"
edition = "2021"
publish = false

[dependencies]
hound = "3"
serde = { version = "1", features = ["derive"] }
serde_json = "1"
axum = "*"
tokio = { version = "1", features = ["macros", "rt-multi-thread", "net"] }
tower-http = { version = "*", features = ["fs"] }
serialport = { version = "4", default-features = false }
cpal = "*"
eframe = { version = "*", default-features = false, features = ["glow", "x11", "default_fonts"] }
