[package]
name = "wasmrs_wasmtime"
version = "0.1.0"
edition = "2021"
publish = false

[dependencies]
wasmrs = "0.17"
wasmrs-host = "0.17"
wasmrs-guest = "0.17"
wasmrs-codec = "0.17"
wasmtime = { version = "14", default-features = false, features = ["cranelift"] }
wasmtime-wasi = { version = "14", default-features = false, features = ["sync"] }
wasi-common = "14"
bytes = "1"
async-trait = "0.1"
serde = { version = "1", features = ["derive"] }
