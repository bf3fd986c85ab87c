[package]
name = "simple_ocl"
version = "0.1.0"
edition = "2021"
publish = false

[dependencies]
ndarray = "*"
ocl = "*"
