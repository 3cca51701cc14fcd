[package]
name = "ray_tracing"
version = "0.1.0"
edition = "2021"
publish = false

[dependencies]
fastrand = "2"
rayon = "1"
image = { version = "0.25", default-features = false, features = ["jpeg", "png"] }
