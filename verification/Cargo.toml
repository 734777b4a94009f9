[package]
name = "dice_master"
version = "0.1.0"
edition = "2021"
publish = false

[dependencies]
bevy = { version = "0.9", default-features = false, features = ["bevy_asset", "bevy_winit", "bevy_core_pipeline", "bevy_render", "bevy_sprite", "bevy_text", "bevy_ui", "png", "x11"] }
bevy_asset_loader = "0.14"
bevy_pkv = "0.6"
bevy_tweening = "0.6"
iyes_progress = "0.7"
serde = { version = "1", features = ["derive"] }
