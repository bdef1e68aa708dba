[package]
name = "ui_style"
version = "0.1.0"
edition = "2021"
publish = false

[dependencies]
bevy = { version = "=0.14.2", default-features = false }
serde = { version = "1", features = ["derive"] }
