[package]
name = "bouncing_balls"
version = "0.1.0"
edition = "2021"
publish = false

[dependencies]
rand = "*"
ril = "*"
rayon = "*"
ab_glyph = "*"
bytemuck = { version = "*", features = ["derive"] }
embedded-graphics = "*"
pixels = "*"
softbuffer = "*"
winit = "*"
