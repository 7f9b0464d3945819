[package]
name = "snek"
version = "0.1.0"
edition = "2021"
publish = false

[dependencies]
rand = "=0.7.3"
bevy = { version = "=0.6.1", default-features = false, features = ["bevy_winit", "render", "x11"] }
async-trait = "=0.1.60"
