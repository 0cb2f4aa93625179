[package]
name = "probius"
version = "0.1.0"
edition = "2021"
publish = false

[dependencies]
bab = "*"
fastrand = "*"
mproto = "*"
pollster = "*"
spin = "*"
