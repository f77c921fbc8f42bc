[package]
name = "almost"
version = "0.1.0"
edition = "2021"
publish = false

[dependencies]
anyhow = "1"
cairo-rs = { version = "*", features = ["xcb"] }
xcb = "1"
