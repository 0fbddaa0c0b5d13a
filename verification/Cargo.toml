[package]
name = "image_process"
version = "0.1.0"
edition = "2021"
publish = false

[dependencies]
base64 = "0.13"
chrono = "0.4"
console_error_panic_hook = "0.1"
image = "0.24"
imageproc = "0.23"
log = "0.4"
wasm-bindgen = "0.2"
