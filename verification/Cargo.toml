[package]
name = "ships"
version = "0.1.0"
edition = "2021"
publish = false

[dependencies]
bevy = { version = "=0.10.1", default-features = false, features = ["bevy_asset", "bevy_scene"] }
bevy_water = { version = "=0.10.4", default-features = false }
