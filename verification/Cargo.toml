[package]
name = "caphost"
version = "0.1.0"
edition = "2021"
publish = false

[dependencies]
wasmtime = { version = "=45.0.3", default-features = false, features = ["cranelift", "runtime", "std"] }
anyhow = "=1.0.104"

[dev-dependencies]
wat = "=1.261.0"
