[package]
name = "frontend"
version = "0.1.0"
edition = "2021"
publish = false

[dependencies]
js-sys = "*"
web-sys = { version = "*", features = ["Url", "Window", "Document", "Element", "HtmlElement", "HtmlImageElement", "EventTarget"] }
wasm-bindgen = "*"
leptos = "*"
leptos_router = "*"
gloo-storage = "*"
serde = { version = "*", features = ["derive"] }
