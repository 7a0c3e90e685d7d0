[package]
name = "mem6"
version = "0.1.0"
edition = "2021"
publish = false

[dependencies]
serde = { version = "1", features = ["derive"] }
serde_json = "1"
qrcode53bytes = "*"
dodrio = "*"
wasm-bindgen = "0.2"
wasm-bindgen-futures = "0.4"
web-sys = { version = "0.3", features = ["Window", "Document", "Element", "HtmlInputElement", "HtmlImageElement", "Location", "Storage", "Event", "EventTarget", "KeyboardEvent", "Response", "Request", "RequestInit", "WebSocket"] }
