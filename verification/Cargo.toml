[package]
name = "lenovo_assist"
version = "0.1.0"
edition = "2021"
publish = false

[dependencies]
tao = "*"
tray-icon = "*"
