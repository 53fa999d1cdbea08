[package]
name = "dark_tetris"
version = "0.1.0"
edition = "2021"
publish = false

[dependencies]
rand = "*"
ndarray = "*"
piston_window = "*"
piston = "*"
gfx = "*"
gfx_device_gl = "*"
cgmath = "*"
