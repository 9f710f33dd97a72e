[package]
name = "palette"
version = "0.1.0"
edition = "2021"
publish = false

[dependencies]
fast-srgb8 = "1"
rand = "0.8"
bytemuck = "1"
