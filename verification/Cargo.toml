[package]
name = "slashcloud"
version = "0.1.0"
edition = "2021"
publish = false

[dependencies]
hex = "0.4"
serde = { version = "1", features = ["derive"] }
serde_json = "1"
worker = "*"
js-sys = "*"
web-sys = { version = "*", features = ["ServiceWorkerGlobalScope", "WorkerGlobalScope", "Crypto", "SubtleCrypto", "CryptoKey"] }
wasm-bindgen = "*"
wasm-bindgen-futures = "*"
async-trait = "*"
cfg-if = "1"
console_error_panic_hook = "0.1"
