[package]
name = "chip8_frontend"
version = "0.1.0"
edition = "2021"
publish = false

[dependencies]
gtk = "0.1.3"
sdl2 = "0.29.1"
