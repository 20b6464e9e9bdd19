[package]
name = "webtau"
version = "0.1.0"
edition = "2021"
publish = false

[dependencies]
rand = "0.8"
syn = { version = "2", features = ["full"] }
quote = "1"
proc-macro2 = "1"
serde = { version = "1", features = ["derive"] }
wasm-bindgen = "0.2"
serde-wasm-bindgen = "0.6"
