[package]
name = "observer_pos"
version = "0.1.0"
edition = "2021"
publish = false

[dependencies]
hifitime = { version = "3", features = ["ut1"] }
nalgebra = "*"
