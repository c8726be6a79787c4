[package]
name = "simulator"
version = "0.1.0"
edition = "2021"
publish = false

[dependencies]
rand = "0.8"
rayon = "1"
gl = "0.14"
sdl2 = "0.37"
