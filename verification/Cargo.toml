[package]
name = "pseudo_memory"
version = "0.1.0"
edition = "2021"
publish = false

[dependencies]
wasmtime = "=48.0.5"

[dev-dependencies]
wasm-encoder = "=0.261.0"
