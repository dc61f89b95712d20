[package]
name = "gldemo"
version = "0.1.0"
edition = "2021"
publish = false

[dependencies]
gl = "*"
sdl2 = "*"
cgmath = "*"
time = "0.1"
