[package]
name = "perceptor"
version = "0.1.0"
edition = "2021"
publish = false

[dependencies]
anyhow = "1"
bevy_ecs = { version = "0.15", default-features = false }
image = { version = "0.25", default-features = false, features = ["png", "jpeg"] }
ndarray = "0.16"
rayon = "1"
tracing = "0.1"
