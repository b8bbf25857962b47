[package]
name = "image_analyzer"
version = "0.1.0"
edition = "2021"
publish = false

[dependencies]
kamadak-exif = "0.5"
image = { version = "0.24", default-features = false, features = ["jpeg", "png", "gif", "bmp", "tiff", "webp"] }
serde = { version = "1", features = ["derive"] }
serde_json = "1"
serde-wasm-bindgen = "0.6"
wasm-bindgen = "0.2"
