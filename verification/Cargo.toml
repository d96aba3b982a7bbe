[package]
name = "fimur"
version = "0.1.0"
edition = "2021"
publish = false

[dependencies]
embedded-hal = "=1.0.0"
embedded-hal-bus = "=0.2.0"
xca9548a = "=1.0.0"
nalgebra = "=0.33.3"
libm = "=0.2.16"
heapless = "=0.8.0"
pyo3 = "0.23"
numpy = "0.23"
ndarray = "0.16"
