[package]
name = "three_d"
version = "0.1.0"
edition = "2021"
publish = false

[dependencies]
log = "0.4"
gloo-timers = "0.2"
js-sys = "0.3"
wasm-bindgen = "0.2"
wasm-bindgen-futures = "0.4"
web-sys = { version = "0.3", features = ["Headers", "Request", "RequestInit", "RequestMode", "Response", "Window"] }
