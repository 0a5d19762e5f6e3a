[package]
name = "gamepad"
version = "0.1.0"
edition = "2021"
publish = false

[dependencies]
winapi = { version = "*", features = ["xinput", "winerror", "minwindef"] }
gilrs = "*"
