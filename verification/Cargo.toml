[package]
name = "wavescope"
version = "0.1.0"
edition = "2021"
publish = false

[dependencies]
tui = { version = "0.6", default-features = false, features = ["crossterm"] }
crossterm = "0.10"
cpal = "0.8"
wavy = "0.1"
