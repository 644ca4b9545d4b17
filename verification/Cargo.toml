[package]
name = "pyperscan"
version = "0.1.0"
edition = "2021"
publish = false

[dependencies]
foreign-types = "0.5"
pyo3 = "0.23"
