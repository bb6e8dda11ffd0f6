[package]
name = "dashboard_state"
version = "0.1.0"
edition = "2021"
publish = false

[dependencies]
serde = { version = "1", features = ["derive"] }
serde_json = "1"
leptos = { version = "0.8", features = ["csr"] }
wasm-bindgen = "0.2"
wasm-bindgen-futures = "0.4"
web-sys = { version = "0.3", features = ["console", "ErrorEvent", "Event", "MessageEvent", "Request", "RequestInit", "RequestMode", "Response", "WebSocket", "Window"] }
console_error_panic_hook = "0.1"
