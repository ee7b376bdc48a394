[package]
name = "bevpg"
version = "0.1.0"
edition = "2021"
publish = false

[dependencies]
bevy = { version = "=0.9.1", default-features = false, features = ["animation", "bevy_asset", "bevy_core_pipeline", "bevy_render", "bevy_sprite", "bevy_text", "bevy_ui"] }
bevy_kira_audio = { version = "0.13", default-features = false, features = ["ogg"] }
bevy_ninepatch = "=0.9.1"
rand = "=0.8.8"
