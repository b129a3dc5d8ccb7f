[package]
name = "numtest"
version = "0.2.0"
edition = "2021"
publish = false

[dependencies]
rustc_apfloat = "*"
num-traits = "*"
