[package]
name = "tetris"
version = "0.1.0"
edition = "2021"
publish = false

[dependencies]
anyhow = "=1.0.104"
wasm-bindgen = "=0.2.129"
