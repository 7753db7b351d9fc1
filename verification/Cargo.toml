[package]
name = "clipawl"
version = "0.1.0"
edition = "2021"
publish = false

[dependencies]
thiserror = "*"
log = "*"
cfg-if = "*"
tokio = { version = "1", features = ["rt"] }
wl-clipboard-rs = "*"
x11-clipboard = "*"
jni = "*"
ndk-context = "*"
js-sys = "*"
wasm-bindgen = "*"
wasm-bindgen-futures = "*"
web-sys = { version = "*", features = ["Window", "Navigator", "Clipboard", "ClipboardItem", "Blob", "BlobPropertyBag", "DomException"] }
