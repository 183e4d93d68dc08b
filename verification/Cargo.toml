[package]
name = "cairo_native"
version = "0.1.0"
edition = "2021"
publish = false

[dependencies]
num-bigint = "0.4"
num-traits = "0.2"
starknet-crypto = "0.6"
