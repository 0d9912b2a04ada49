[package]
name = "boid_flock"
version = "0.1.0"
edition = "2021"
publish = false

[dependencies]
bevy = { version = "=0.11.3", default-features = false }
bevy_rand = "=0.2.0"
bevy_xpbd_2d = { version = "=0.2.0", default-features = false, features = ["2d", "f32"] }
rand = "=0.8.8"
rand_chacha = "=0.3.1"
