[package]
name = "zxq5chat"
version = "0.1.0"
edition = "2021"
publish = false

[dependencies]
sha2 = "0.10"
rand = "0.8"
toml = "0.8"
serde = { version = "1", features = ["derive"] }
serde_json = "1"
chrono = "0.4"
tokio = { version = "1", features = ["full"] }
rocket = { version = "0.5", features = ["json", "secrets"] }
rocket_cors = "0.6"
rocket_ws = "0.1"
yew = { version = "0.21", features = ["csr"] }
yew-router = "0.18"
gloo = "0.11"
gloo-net = "0.5"
wasm-bindgen = "0.2"
wasm-bindgen-futures = "0.4"
web-sys = { version = "0.3", features = ["HtmlInputElement", "WebSocket", "MessageEvent", "ErrorEvent", "Window", "Document", "HtmlElement", "Element"] }
