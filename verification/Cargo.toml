[package]
name = "pathtracer"
version = "0.1.0"
edition = "2021"
publish = false

[dependencies]
clap = { version = "=3.2.25", features = ["derive"] }
glam = "=0.21.3"
image = { version = "=0.24.9", default-features = false, features = ["png"] }
indicatif = "=0.17.11"
lerp = "=0.5.0"
quasirandom = "=0.3.0"
rand = "=0.8.8"
rayon = "=1.12.0"
