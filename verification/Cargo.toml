[package]
name = "snake"
version = "0.1.0"
edition = "2021"
publish = false

[dependencies]
rand = "0.8"
bevy = { version = "0.10", default-features = false, features = ["bevy_winit", "bevy_core_pipeline", "bevy_render", "bevy_sprite", "x11"] }
