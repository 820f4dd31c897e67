[package]
name = "runtime-factors"
version = "0.1.0"
edition = "2021"
publish = false

[dependencies]
anyhow = "1.0.104"
http = "1.5.0"
tempfile = "3.27.0"
tokio = { version = "1.54.1", features = ["macros", "rt-multi-thread"] }
toml = "0.9.8"
tracing = "0.1.44"
wasmtime = "45.0.3"
wasmtime-wasi = "45.0.3"
wasmtime-wasi-http = "45.0.3"
