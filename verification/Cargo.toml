[package]
name = "frontend"
version = "0.1.0"
edition = "2021"
publish = false

[dependencies]
base64 = "0.22"
serde_json = "1"
serde = { version = "1", features = ["derive"] }
yew = { version = "0.21", features = ["csr"] }
yew-router = "0.18"
gloo-net = "0.5"
gloo-storage = "0.3"
gloo-timers = "0.3"
gloo-console = "0.3"
wasm-bindgen-futures = "0.4"
js-sys = "0.3"
web-sys = { version = "0.3", features = ["HtmlInputElement", "HtmlTextAreaElement", "console", "Window"] }
