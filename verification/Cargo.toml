[package]
name = "rxing-wasm"
version = "0.1.0"
edition = "2021"
publish = false

[dependencies]
rxing = { version = "=0.9.3", features = ["wasm_support"] }
wasm-bindgen = "=0.2.129"
web-sys = { version = "=0.3.106", features = ["ImageData", "OffscreenCanvasRenderingContext2d"] }
