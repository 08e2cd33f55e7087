[package]
name = "bevaders"
version = "0.1.0"
edition = "2021"
publish = false

[dependencies]
anyhow = "1"
bevy = { version = "0.13", default-features = false }
opencv = "0.88"
