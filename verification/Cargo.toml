[package]
name = "sea_of_fortune"
version = "0.1.0"
edition = "2021"
publish = false

[dependencies]
rand = "0.8"
serde = { version = "1", features = ["derive"] }
serde_json = "1"
bevy = { version = "0.14", default-features = false, features = ["bevy_state"] }
