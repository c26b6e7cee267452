[package]
name = "nebula_display"
version = "0.1.0"
edition = "2021"
publish = false

[dependencies]
log = "0.4"
serde = { version = "1", features = ["derive"] }
toml = "0.8"
unicode-width = "0.2"
winit = { version = "0.30", default-features = false, features = ["x11", "rwh_06"] }
