[package]
name = "sandbox_host"
version = "0.1.0"
edition = "2021"
publish = false

[dependencies]
pyo3 = "=0.29.3"
pyo3-async-runtimes = { version = "=0.29.0", features = ["tokio-runtime"] }
tokio = { version = "=1.53.2", features = ["sync", "rt-multi-thread", "macros"] }
wasmtime = "=47.0.4"
wasmtime-wasi = "=47.0.4"
wasmtime-wasi-io = "=47.0.4"
