[package]
name = "sky"
version = "0.1.0"
edition = "2021"
publish = false

[dependencies]
bracket-noise = "*"
image = "*"
rayon = "*"

[dev-dependencies]
rand_xoshiro = "*"
