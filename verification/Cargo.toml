[package]
name = "gesture_config"
version = "0.1.0"
edition = "2021"
publish = false

[dependencies]
log = "0.4"
ron = "*"
serde = { version = "1", features = ["derive"] }
uinput = { version = "0.1", default-features = false }
