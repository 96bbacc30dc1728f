[package]
name = "han_foo"
version = "0.1.0"
edition = "2021"
publish = false

[dependencies]
console_error_panic_hook = "0.1"
rand = "0.9"
serde = { version = "1", features = ["derive"] }
serde_json = "1"
wasm-bindgen = "0.2"
wasm-cookies = "0.2"
web-sys = { version = "0.3", features = ["Window", "Document", "HtmlDocument", "HtmlElement", "HtmlInputElement", "Element", "Node", "NodeList", "DomTokenList", "EventTarget", "Event", "MouseEvent", "KeyboardEvent", "InputEvent", "console"] }
