[package]
name = "rbda"
version = "0.3.0"
edition = "2021"
publish = false

[dependencies]
bevy = { version = "=0.10.1", default-features = false, features = ["bevy_asset", "bevy_render", "bevy_core_pipeline", "bevy_pbr", "bevy_ui", "bevy_text", "bevy_scene", "bevy_gltf"] }
