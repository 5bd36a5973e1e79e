[package]
name = "fg_engine"
version = "0.1.0"
edition = "2021"
publish = false

[dependencies]
tobj = "*"
image = "*"
sdl2 = "*"
gl = "*"
cgmath = "*"
