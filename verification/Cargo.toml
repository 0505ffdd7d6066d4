[package]
name = "provider_harness"
version = "0.1.0"
edition = "2021"
publish = false

[dependencies]
axum = "=0.8.9"
base64 = "=0.22.1"
chrono = "=0.4.45"
clap = { version = "=4.6.7", features = ["derive"] }
hmac = "=0.12.1"
serde_json = "=1.0.154"
sha2 = "=0.10.9"
tokio = { version = "=1.54.1", features = ["rt", "net", "signal", "macros"] }
wasmtime = "=45.0.3"
wasmtime-wasi = "=45.0.3"
