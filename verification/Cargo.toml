[package]
name = "rendercore"
version = "0.1.0"
edition = "2021"
publish = false

[dependencies]
bitvec = "*"
winit = "*"
glium = "*"
image = "*"
easy-gltf = "*"
glam = "*"
simple_moving_average = "*"
