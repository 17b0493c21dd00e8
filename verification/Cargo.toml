[package]
name = "wasm_function"
version = "0.1.0"
edition = "2021"
publish = false

[dependencies]
wasmer-runtime = "=1.0.1"
