[package]
name = "ts3tts"
version = "0.2.0"
edition = "2021"
publish = false

[dependencies]
ts3plugin = "=0.2.1"
lazy_static = "1"
