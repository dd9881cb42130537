[package]
name = "tangle_transport"
version = "0.1.0"
edition = "2021"
publish = false

[dependencies]
hex = "0.4"
num_cpus = "1"
futures = "0.3"
smol = "*"
