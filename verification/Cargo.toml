[package]
name = "crabml_core"
version = "0.1.0"
edition = "2021"
publish = false

[dependencies]
bytemuck = "1"
libm = "*"
threadpool = "=1.8.1"

[dev-dependencies]
half = "=2.7.1"
