[package]
name = "engine"
version = "0.1.0"
edition = "2021"
publish = false

[dependencies]
bevy = { version = "0.18", default-features = false, features = ["bevy_sprite", "bevy_ui", "bevy_text", "bevy_state", "bevy_log", "png", "std"] }
serde = { version = "1", features = ["derive"] }
ron = "0.12"
thiserror = "2"
strum = { version = "0.27", features = ["derive"] }
