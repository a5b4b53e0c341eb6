[package]
name = "bevy_easy_config"
version = "0.1.0"
edition = "2021"
publish = false

[dependencies]
bevy = { version = "0.14", default-features = false, features = ["bevy_asset"] }
ron = "0.8"
serde = { version = "1", features = ["derive"] }
thiserror = "1"
