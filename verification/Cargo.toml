[package]
name = "progression"
version = "0.1.0"
edition = "2021"
publish = false

[dependencies]
bevy = { version = "0.10", default-features = false, features = ["bevy_asset", "bevy_core_pipeline", "bevy_render", "bevy_sprite", "bevy_text"] }
bevy_egui = { version = "0.20", default-features = false }
strum = { version = "0.24", features = ["derive"] }
