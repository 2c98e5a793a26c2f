[package]
name = "chess_bridge"
version = "0.1.0"
edition = "2021"
publish = false

[dependencies]
fenex = "0.1.10"
serde = { version = "1", features = ["derive"] }
wasm-bindgen = "0.2"
serde-wasm-bindgen = "0.6"
console_error_panic_hook = "0.1"
