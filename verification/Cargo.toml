[package]
name = "streamcast"
version = "0.1.0"
edition = "2021"
publish = false

[dependencies]
ffmpeg = "*"
libc = "*"
shout = "*"
