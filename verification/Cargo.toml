[package]
name = "tauri-wasm"
version = "0.2.0"
edition = "2021"
publish = false

[dependencies]
js-sys = "0.3"
serde = "1"
serde-wasm-bindgen = "0.6"
wasm-bindgen = "0.2"
wasm-bindgen-futures = "0.4"
web-sys = { version = "0.3", features = ["Headers"] }
