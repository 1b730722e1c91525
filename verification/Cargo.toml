[package]
name = "flowfield"
version = "0.1.0"
edition = "2021"
publish = false

[dependencies]
rand = "0.8"
libnoise = "1"
bevy = { version = "0.12", default-features = false }
