[package]
name = "rubiks_cube"
version = "0.1.0"
edition = "2021"
publish = false

[dependencies]
rand = "=0.8.8"
futures = "=0.3.34"
winit = { version = "0.29", default-features = false, features = ["rwh_06", "x11"] }
