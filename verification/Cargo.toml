[package]
name = "physics_playground"
version = "0.1.0"
edition = "2021"
publish = false

[dependencies]
bevy = { version = "=0.14.2", default-features = false, features = ["bevy_asset"] }
bevy_rapier2d = { version = "=0.27.0", default-features = false, features = ["dim2", "headless", "async-collider"] }
bevy_common_assets = { version = "=0.11.0", default-features = false, features = ["ron"] }
serde = { version = "=1.0.229", features = ["derive"] }
