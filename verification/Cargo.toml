[package]
name = "tinywasm"
version = "0.1.0"
edition = "2021"
publish = false

[dependencies]
tinywasm-types = "=0.3.0"
wasmparser = "=0.100.0"
