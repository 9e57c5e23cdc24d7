[package]
name = "rust_maps"
version = "0.1.0"
edition = "2021"
publish = false

[dependencies]
libm = "*"
rustc_apfloat = "*"
bytemuck = "*"
pyo3 = "*"
