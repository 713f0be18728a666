[package]
name = "midenc_core"
version = "0.1.0"
edition = "2021"
publish = false

[dependencies]
miden-diagnostics = "*"
num-bigint = "*"
