[package]
name = "ballpit"
version = "0.1.0"
edition = "2021"
publish = false

[dependencies]
bevy = { version = "=0.6.1", default-features = false, features = ["render"] }
bevy_kira_audio = "=0.8.0"
bevy_prototype_lyon = "=0.4.0"
dasp = { version = "=0.11.0", features = ["signal"] }
pitch_calc = "=0.12.0"
