[package]
name = "lbp"
version = "0.1.0"
edition = "2021"
publish = false

[dependencies]
hydra-dx-math = "=3.1.0"
