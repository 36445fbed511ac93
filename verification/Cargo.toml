[package]
name = "bevy_ui_proxy"
version = "0.1.0"
edition = "2021"
publish = false

[dependencies]
bimap = "0.6"
