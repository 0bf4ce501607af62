[package]
name = "osx_bundle"
version = "0.1.0"
edition = "2021"
publish = false

[dependencies]
icns = "*"
image = { version = "*", default-features = false, features = ["png", "jpeg"] }
