[package]
name = "pomodoro"
version = "0.1.0"
edition = "2021"
publish = false

[dependencies]
yew = { version = "*", features = ["csr"] }
gloo = "*"
wasm-bindgen = "*"
wasm-bindgen-futures = "*"
serde = "*"
serde-wasm-bindgen = "*"
