[package]
name = "cue_pacer"
version = "0.1.0"
edition = "2021"
publish = false

[dependencies]
webvtt = "*"
serde = { version = "1", features = ["derive"] }
log = "0.4"
wasm-logger = "*"
wasm-bindgen = "0.2"
web-sys = { version = "0.3", features = ["Event", "EventTarget", "HtmlMediaElement", "HtmlVideoElement", "KeyboardEvent", "Location", "MessageEvent", "MouseEvent", "Window"] }
gloo = "*"
yew = { version = "*", features = ["csr"] }
