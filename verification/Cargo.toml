[package]
name = "cowboy_tower"
version = "0.1.0"
edition = "2021"
publish = false

[dependencies]
macroquad = { version = "0.4", default-features = false }
gamepads = "*"
asefile = "0.3"
image = "*"
include_dir = "0.7"
