[package]
name = "fere"
version = "0.1.0"
edition = "2021"
publish = false

[dependencies]
chrono = "0.4"
crossbeam = "0.8"
nalgebra-glm = "*"
rand = "0.8"
thiserror = "1"
