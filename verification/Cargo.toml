[package]
name = "runtime_primitives"
version = "0.1.0"
edition = "2021"
publish = false

[dependencies]
sp-core = "*"
sp-io = "*"

[dev-dependencies]
parity-scale-codec = "*"
