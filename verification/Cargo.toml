[package]
name = "chip8_emulator"
version = "0.1.0"
edition = "2021"
publish = false

[dependencies]
getrandom = "0.2"
bytemuck = { version = "1", features = ["derive"] }
instant = "0.1"
log = "0.4"
pollster = "0.3"
simple_logger = { version = "4", default-features = false }
winit = { version = "0.29", default-features = false, features = ["rwh_05", "x11"] }
