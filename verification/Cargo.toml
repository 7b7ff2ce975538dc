[package]
name = "reactive_font"
version = "0.1.0"
edition = "2021"
publish = false

[dependencies]
bevy = { version = "0.17", default-features = false, features = ["std", "bevy_text"] }
thiserror = "2"
