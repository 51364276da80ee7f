[package]
name = "pomodoro_tray"
version = "0.1.0"
edition = "2021"
publish = false

[dependencies]
tray-item = "*"
