[package]
name = "urlpattern_bridge"
version = "0.1.0"
edition = "2021"
publish = false

[dependencies]
urlpattern = "=0.6.0"
regex = "=1.13.1"
serde = { version = "=1.0.229", features = ["derive"] }
wasm-bindgen = { version = "=0.2.129", features = ["serde-serialize"] }
