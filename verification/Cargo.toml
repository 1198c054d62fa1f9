[package]
name = "firebase_bridge"
version = "0.1.0"
edition = "2021"
publish = false

[dependencies]
derive_more = { version = "=2.1.1", features = ["deref"] }
futures = "=0.3.34"
js-sys = "=0.3.77"
thiserror = "=2.0.21"
wasm-bindgen = "=0.2.100"
wasm-bindgen-futures = "=0.4.50"
