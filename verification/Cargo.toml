[package]
name = "dot_capture"
version = "0.1.0"
edition = "2021"
publish = false

[dependencies]
cfg-if = "1"
wasm-bindgen = "0.2"
