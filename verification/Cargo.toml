[package]
name = "apache_iggy"
version = "0.1.0"
edition = "2021"
publish = false

[dependencies]
iggy = "*"
secrecy = "*"
pyo3 = "*"
pyo3-stub-gen = "*"
