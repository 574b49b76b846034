[package]
name = "wasm_component"
version = "0.1.0"
edition = "2021"
publish = false

[dependencies]
anyhow = "=1.0.104"
postcard = { version = "=1.1.3", default-features = false, features = ["alloc"] }
wasmtime-environ = { version = "=20.0.2", features = ["component-model"] }
wasmtime-runtime = { version = "=20.0.2", features = ["component-model", "pooling-allocator"] }
