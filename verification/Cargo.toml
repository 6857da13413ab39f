[package]
name = "wormhole_client"
version = "0.1.0"
edition = "2021"
publish = false

[dependencies]
console_error_panic_hook = "0.1"
futures = "0.3"
js-sys = "0.3"
magic-wormhole = "*"
serde = { version = "1", features = ["derive"] }
serde_json = "1"
url = "2"
wasm-bindgen = "0.2"
wasm-bindgen-futures = "0.4"
wasm-logger = "0.2"
web-sys = { version = "0.3", features = ["Blob", "File", "HtmlElement"] }
wee_alloc = "0.4"
