[package]
name = "custom_material"
version = "0.1.0"
edition = "2021"
publish = false

[dependencies]
bevy = { version = "=0.7.0", default-features = false, features = ["bevy_render", "bevy_core_pipeline", "bevy_sprite"] }
darling_macro = "=0.13.4"
