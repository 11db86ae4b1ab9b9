[package]
name = "tilemap_editor"
version = "0.1.0"
edition = "2021"
publish = false

[dependencies]
bevy = { version = "0.10", default-features = false }
bevy_ecs_tilemap = { version = "0.10", default-features = false }
thiserror = "1"
