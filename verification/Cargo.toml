[package]
name = "web_worker"
version = "0.1.0"
edition = "2021"
publish = false

[dependencies]
bincode = "2.0"
serde_json = "1"
wasm-bindgen = "0.2"
wasm-bindgen-futures = "0.4"
js-sys = "0.3"
web-sys = { version = "0.3", features = ["Blob", "BlobPropertyBag", "Location", "MessageEvent", "Url", "Window", "Worker", "WorkerOptions", "WorkerType"] }
gloo-utils = { version = "0.2", features = ["serde"] }
gloo = { version = "0.11", default-features = false, features = ["console"] }
tokio = { version = "1", default-features = false, features = ["sync"] }
console_error_panic_hook = "0.1"
