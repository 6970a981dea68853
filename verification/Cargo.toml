[package]
name = "brep"
version = "0.1.0"
edition = "2021"
publish = false

[dependencies]
euclid = "=0.22.14"
glam = "=0.34.1"
nalgebra-glm = "=0.21.0"
ultraviolet = { version = "=0.10.0", features = ["f64"] }
vek = "=0.17.2"
