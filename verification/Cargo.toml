[package]
name = "hotkey_window"
version = "0.1.0"
edition = "2021"
publish = false

[dependencies]
crossterm = "*"
winapi = { version = "0.3", features = ["winuser", "libloaderapi"] }
