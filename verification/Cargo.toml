[package]
name = "wasmjit_capi"
version = "0.1.0"
edition = "2021"
publish = false

[dependencies]
cranelift-wasm = "=0.112.3"
wast = { version = "=263.0.0", default-features = false, features = ["wasm-module"] }
