[package]
name = "wasmer_import_api"
version = "0.1.0"
edition = "2021"
publish = false

[dependencies]
libc = "0.2"
wasmer-runtime-core = "=0.17.1"
wasmer-wasi = "=0.17.1"
