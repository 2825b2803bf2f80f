[package]
name = "pong_core"
version = "0.1.0"
edition = "2021"
publish = false

[dependencies]
glam = "0.20"
glow = "0.11"
glutin = "0.28"
bytemuck = "1"
