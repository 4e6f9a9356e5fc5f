[package]
name = "imgdec"
version = "0.1.0"
edition = "2021"
publish = false

[dependencies]
aes = "0.8"
base64 = "0.22"
wasm-bindgen = "0.2"
js-sys = "0.3"

[dev-dependencies]
cbc = { version = "0.1", features = ["alloc"] }
