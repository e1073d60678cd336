[package]
name = "space_renderer"
version = "0.1.0"
edition = "2021"
publish = false

[dependencies]
image = { version = "0.25", default-features = false, features = ["png"] }
rand = "0.8"
fastnoise-lite = "1.1"
nalgebra-glm = "0.19"
minifb = "0.27"
