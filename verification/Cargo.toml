[package]
name = "dulahi"
version = "0.1.0"
edition = "2021"
publish = false

[dependencies]
bevy = { version = "0.18", default-features = false, features = ["bevy_ui", "bevy_state", "bevy_text", "bevy_window", "bevy_pbr", "default_font", "multi_threaded"] }
