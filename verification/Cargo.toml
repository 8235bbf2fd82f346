[package]
name = "proc_aud"
version = "0.1.0"
edition = "2021"
publish = false

[dependencies]
fundsp = "*"
bevy = { version = "0.16", default-features = false, features = ["bevy_asset", "bevy_audio"] }
