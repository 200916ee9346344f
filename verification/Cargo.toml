[package]
name = "halo2_intdiv"
version = "0.1.0"
edition = "2021"
publish = false

[dependencies]
halo2-base = "0.5"
