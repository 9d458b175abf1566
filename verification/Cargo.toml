[package]
name = "servo_bridge"
version = "0.1.0"
edition = "2021"
publish = false

[dependencies]
mime_guess = "2"
url = "2"
headers = "0.4"
dpi = "*"
keyboard-types = "*"
sdl2 = "*"
