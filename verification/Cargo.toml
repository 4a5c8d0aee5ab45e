[package]
name = "sha512-lucet"
version = "0.1.0"
edition = "2021"
publish = false

[dependencies]
byteorder = "=1.5.0"
failure = "=0.1.8"
lucet-runtime = "=0.6.1"

[dev-dependencies]
lucet-runtime-internals = "=0.6.1"
