[package]
name = "appro_eq"
version = "0.3.1"
edition = "2021"
publish = false

[dependencies]
ndarray = "*"
num-complex = "*"
num-integer = "*"
num-rational = "*"
num-traits = "*"
