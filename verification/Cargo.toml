[package]
name = "gchemol_geometry"
version = "0.1.0"
edition = "2021"
publish = false

[dependencies]
vecfx = { version = "=0.1.6", features = ["nalgebra"] }
rand = "=0.8.8"
rand_distr = "=0.4.3"
