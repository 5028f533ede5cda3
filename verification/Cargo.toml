[package]
name = "client"
version = "0.1.0"
edition = "2021"
publish = false

[dependencies]
time = { version = "=0.3.55", features = ["wasm-bindgen"] }
anyhow = "=1.0.104"
hecs = "=0.11.2"
rapier2d = "=0.36.1"
