[package]
name = "ruvy"
version = "0.1.0"
edition = "2021"
publish = false

[dependencies]
anyhow = "=1.0.104"
clap = { version = "=4.6.7", features = ["derive"] }
http-body-util = "=0.1.5"
hyper = "=1.12.0"
hyper-tls = "=0.6.0"
hyper-util = { version = "=0.1.21", features = ["client-legacy", "http1", "tokio"] }
lazy_static = "=1.5.1"
once_cell = "=1.21.4"
tokio = { version = "=1.54.1", features = ["rt", "rt-multi-thread", "macros"] }
wasmtime = "=45.0.3"
wasmtime-wasi = "=45.0.3"
wasmtime-wizer = { version = "=45.0.3", features = ["wasmtime"] }
