[package]
name = "canvas_paint"
version = "0.1.0"
edition = "2021"
publish = false

[dependencies]
bevy = { version = "=0.14.2", default-features = false }
derive_more = { version = "=1.0.0", features = ["from"] }
