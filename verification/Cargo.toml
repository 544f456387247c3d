[package]
name = "moq_player"
version = "0.1.0"
edition = "2021"
publish = false

[dependencies]
hex = "*"
url = "*"
thiserror = "*"
tracing = "*"
futures = "*"
tokio = { version = "*", default-features = false, features = ["sync", "macros"] }
console_error_panic_hook = "*"
custom-elements = "*"
gloo-net = "*"
wasm-bindgen = "*"
wasm-bindgen-futures = "*"
wasm-tracing = "*"
web-codecs = "*"
web-sys = { version = "*", features = ["Window", "Document", "Element", "HtmlElement", "HtmlCanvasElement", "Node", "Text", "CanvasRenderingContext2d", "VideoFrame"] }
web-transport = "*"
web-transport-wasm = "*"
moq-karp = "*"
moq-transfork = "*"
