[package]
name = "kenney_assets"
version = "0.1.0"
edition = "2021"
publish = false

[dependencies]
roxmltree = "0.20"
thiserror = "1"
bevy = { version = "0.14", default-features = false, features = ["bevy_asset"] }
