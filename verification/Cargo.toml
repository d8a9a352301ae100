[package]
name = "vibewm"
version = "0.1.0"
edition = "2021"
publish = false

[dependencies]
anyhow = "1"
smithay = { version = "*", default-features = false, features = ["backend_winit", "desktop", "renderer_glow", "wayland_frontend"] }
tracing = "0.1"
tracing-subscriber = { version = "0.3", features = ["env-filter"] }
