[package]
name = "hyprswitch"
version = "0.1.0"
edition = "2021"
publish = false

[dependencies]
rand = "*"
anyhow = "1"
tracing = "0.1"
hyprland = "*"
