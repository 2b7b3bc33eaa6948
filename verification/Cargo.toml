[package]
name = "camera_rig"
version = "0.1.0"
edition = "2021"
publish = false

[dependencies]
bevy = { version = "=0.16.1", default-features = false, features = ["std", "bevy_color", "bevy_log"] }
noise = "=0.9.0"
rand = "=0.8.8"
