[package]
name = "dodger"
version = "0.1.0"
edition = "2021"
publish = false

[dependencies]
rand = "0.9"
bevy = { version = "*", default-features = false, features = ["bevy_sprite", "bevy_asset", "bevy_core_pipeline"] }
