[package]
name = "polars_lite"
version = "0.1.0"
edition = "2021"
publish = false

[dependencies]
pyo3 = "0.23"
serde = { version = "1", features = ["derive"] }
schemars = "0.8"
