[package]
name = "player_motion"
version = "0.1.0"
edition = "2021"
publish = false

[dependencies]
rustc_apfloat = "*"
bevy = { version = "0.13", default-features = false }
