[package]
name = "tetris_physics"
version = "0.1.0"
edition = "2021"
publish = false

[dependencies]
rand = "=0.8.8"
bevy = { version = "=0.5.0", default-features = false, features = ["render"] }
bevy_rapier2d = "=0.9.0"
nalgebra = "=0.25.4"
num-derive = { version = "=0.3.3", features = ["full-syntax"] }
