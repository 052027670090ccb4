[package]
name = "bevy_physx"
version = "0.1.0"
edition = "2021"
publish = false

[dependencies]
bevy = { version = "0.5", default-features = false }
physx = "*"
physx-sys = "*"
