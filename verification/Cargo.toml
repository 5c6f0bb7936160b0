[package]
name = "glulands"
version = "0.4.2"
edition = "2021"
publish = false

[dependencies]
bevy = { version = "0.14", default-features = false, features = ["bevy_asset", "bevy_color", "bevy_state"] }
