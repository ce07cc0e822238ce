[package]
name = "gifpipe"
version = "0.1.0"
edition = "2021"
publish = false

[dependencies]
futures-channel = "*"
wasm-bindgen = "*"
js-sys = "*"
wasm-bindgen-futures = "*"
wasm_thread = "*"
log = "*"
console_log = "*"
console_error_panic_hook = "*"

[dependencies.web-sys]
version = "*"
features = ["Blob", "BlobPropertyBag", "Url"]
