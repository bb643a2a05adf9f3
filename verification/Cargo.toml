[package]
name = "transformers"
version = "0.1.0"
edition = "2021"
publish = false

[dependencies]
bytemuck = "*"
image = "=0.25.10"
oxipng = "=10.2.1"
wasm-bindgen = "*"
console_error_panic_hook = "*"
