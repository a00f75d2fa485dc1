[package]
name = "invaders_bus"
version = "0.1.0"
edition = "2021"
publish = false

[dependencies]
sdl3 = "*"
spin_sleep = "*"
