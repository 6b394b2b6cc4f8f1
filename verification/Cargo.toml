[package]
name = "wasm_embed"
version = "0.1.0"
edition = "2021"
publish = false

[dependencies]
js-sys = "0.3"
wasm-bindgen = "0.2"
thiserror = "1"
serde = { version = "1", features = ["derive"] }
libc = "0.2"
wat = "1"
