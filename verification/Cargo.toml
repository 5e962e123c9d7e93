[package]
name = "animated_gizmos"
version = "0.1.0"
edition = "2021"
publish = false

[dependencies]
bevy_color = { version = "0.15", default-features = false }
bevy_math = { version = "0.15", default-features = false }
bevy_time = { version = "0.15", default-features = false }
