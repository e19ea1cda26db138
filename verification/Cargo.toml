[package]
name = "tf_time_cache"
version = "0.1.0"
edition = "2021"
publish = false

[dependencies]
nalgebra = "*"
approx = "*"
