[package]
name = "referenda"
version = "0.1.0"
edition = "2021"
publish = false

[dependencies]
parity-scale-codec = "*"
sp-core = "*"
sp-runtime = "*"
sp-io = "*"
frame-support = "*"
frame-system = "*"
