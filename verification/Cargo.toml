[package]
name = "module_setup"
version = "0.1.0"
edition = "2021"
publish = false

[dependencies]
anyhow = "=1.0.104"
cranelift-entity = "=0.66.0"
cranelift-wasm = "=0.66.0"
libc = "=0.2.191"
target-lexicon = "=0.10.0"
thiserror = "=1.0.69"
wasmparser = "=0.59.0"
wasmtime-debug = "=0.19.0"
wasmtime-environ = "=0.19.0"
wasmtime-profiling = "=0.19.0"
wasmtime-runtime = "=0.19.0"
