[package]
name = "vk_debug"
version = "0.1.0"
edition = "2021"
publish = false

[dependencies]
ash = { version = "*", default-features = false }
