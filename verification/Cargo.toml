[package]
name = "gdal"
version = "0.1.0"
edition = "2021"
publish = false

[dependencies]
gdal-sys = "*"
libc = "*"
ndarray = "*"
