[package]
name = "pathtracer"
version = "0.1.0"
edition = "2021"
publish = false

[dependencies]
itertools = "*"
nalgebra = "*"
rand = "*"
rayon = "*"
serde = { version = "*", features = ["derive"] }
serde_derive = "*"
serde_json = "*"
