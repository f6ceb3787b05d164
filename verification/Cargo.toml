[package]
name = "datadrill"
version = "0.1.0"
edition = "2021"
publish = false

[dependencies]
polars = { version = "=0.46.0", default-features = false, features = ["lazy"] }
pyo3 = "0.23"
pyo3-polars = "0.20"
