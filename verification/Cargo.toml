[package]
name = "screencast"
version = "0.1.0"
edition = "2021"
publish = false

[dependencies]
anyhow = "=1.0.104"
pipewire = { version = "=0.10.1", features = ["v0_3_44"] }
smithay = { version = "=0.7.0", default-features = false, features = ["renderer_gl", "backend_egl", "backend_gbm", "backend_drm"] }
tracing = "=0.1.44"
