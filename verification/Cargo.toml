[package]
name = "cube_state"
version = "0.1.0"
edition = "2021"
publish = false

[dependencies]
rand = "=0.9.5"
pyo3 = { version = "=0.20.3", features = ["extension-module"] }
